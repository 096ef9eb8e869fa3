//! What holds of the hosts: who is told, in which order, and what they are told.

use vstd::prelude::*;
use vstd::string::*;

use crate::app::env::{var_of, EnvView};
use crate::app::NAME;
use crate::host::ansi::{calls, AnsiHost, ProgressState, UiView};
use crate::host::background::{channel, darkness, hex_value, is_color, query_words, reply_darkness};
use crate::host::cmux::{final_batch, loading, state_batch};
use crate::host::herdr::{
    argv_of, inside_herdr, lifecycle_of, pane_facts, params_node, posted, released, report_args,
    request_node, HerdrView, Pane, ReportView, RequestView,
};
use crate::host::{
    closing_names, first_with, gathered, has_cap, known_tone, AnyHost, Cap, Event, Host, Notifier,
    State, StateReporter,
};
use crate::json::{member, object_node, JsonNode};
use crate::map::{map_of, pairs_have_the_map};
use crate::text::decimal_of;

verus! {

// ---------------------------------------------------------------- who is told

/// The host that is told is the first that can be: none before it has the capability, and where none is found no
/// host has it.
pub proof fn the_first_able_host_is_told<H: Host>(hosts: Seq<H>, c: Cap, from: int)
    requires
        0 <= from <= hosts.len(),
    ensures
        ({
            let i = first_with(hosts, c, from);
            &&& from <= i <= hosts.len()
            &&& i < hosts.len() ==> has_cap(hosts[i].caps_view(), c)
            &&& forall|k: int| from <= k < i ==> !has_cap((#[trigger] hosts[k]).caps_view(), c)
        }),
    decreases hosts.len() - from,
{
    if from < hosts.len() && !has_cap(hosts[from].caps_view(), c) {
        the_first_able_host_is_told(hosts, c, from + 1);
    }
}

/// The background is that of the first host that can tell and does.
pub proof fn the_first_known_background_counts<H: Host>(hosts: Seq<H>, from: int, k: int)
    requires
        0 <= from <= k <= hosts.len(),
        forall|i: int|
            from <= i < k ==> !((#[trigger] hosts[i]).caps_view().background && hosts[i].tone()
                is Some),
        k < hosts.len() ==> hosts[k].caps_view().background && hosts[k].tone() is Some,
    ensures
        k < hosts.len() ==> known_tone(hosts, from) == hosts[k].tone(),
        k == hosts.len() ==> known_tone(hosts, from) is None,
    decreases k - from,
{
    if from < k {
        assert(!(hosts[from].caps_view().background && hosts[from].tone() is Some));
        the_first_known_background_counts(hosts, from + 1, k);
    }
}

/// The facts of the hosts that have any stand in the order of the hosts.
pub proof fn facts_are_gathered_in_order<H: Host>(hosts: Seq<H>, n: int)
    requires
        0 < n <= hosts.len(),
    ensures
        hosts[n - 1].caps_view().environment ==> gathered(hosts, n) == gathered(hosts, n - 1)
            + hosts[n - 1].told_facts(),
        !hosts[n - 1].caps_view().environment ==> gathered(hosts, n) == gathered(hosts, n - 1),
        gathered(hosts, 0).len() == 0,
{
}

proof fn closing_names_grow<H: Host>(hosts: Seq<H>, last: H, n: int)
    requires
        0 <= n <= hosts.len(),
    ensures
        closing_names(hosts.push(last), n) == if last.caps_view().close {
            seq![last.name_view()] + closing_names(hosts, n)
        } else {
            closing_names(hosts, n)
        },
    decreases hosts.len() - n,
{
    let all = hosts.push(last);
    if n < hosts.len() {
        closing_names_grow(hosts, last, n + 1);
        assert(all[n] == hosts[n]);
        assert(closing_names(all, n) =~= if last.caps_view().close {
            seq![last.name_view()] + closing_names(hosts, n)
        } else {
            closing_names(hosts, n)
        });
    } else {
        assert(all[n] == last);
        assert(closing_names(all, n + 1) =~= Seq::<Seq<char>>::empty());
        assert(closing_names(hosts, n) =~= Seq::<Seq<char>>::empty());
        assert(closing_names(all, n) =~= if last.caps_view().close {
            seq![last.name_view()] + closing_names(hosts, n)
        } else {
            closing_names(hosts, n)
        });
    }
}

/// Hosts are closed from the last to the first, those that can be.
pub proof fn the_last_host_is_closed_first<H: Host>(hosts: Seq<H>, last: H)
    ensures
        last.caps_view().close ==> closing_names(hosts.push(last), 0) == seq![last.name_view()]
            + closing_names(hosts, 0),
        !last.caps_view().close ==> closing_names(hosts.push(last), 0) == closing_names(hosts, 0),
{
    closing_names_grow(hosts, last, 0);
}

// ---------------------------------------------------------------- a terminal

/// A terminal shows a run at work as such, one that waits as waiting, one that failed as failed, and nothing of
/// one that is idle.
pub proof fn a_terminal_shows_the_state(pre: AnsiHost, s: State, post: AnsiHost)
    requires
        AnyHost::state_shown(AnyHost::Terminal(pre), s, AnyHost::Terminal(post)),
    ensures
        calls(post.pending@).drop_last() == calls(pre.pending@),
        s == State::Busy <==> calls(post.pending@).last() == UiView::Progress(ProgressState::Busy),
        s == State::NeedsInput <==> calls(post.pending@).last() == UiView::Progress(
            ProgressState::Input,
        ),
        s == State::Error <==> calls(post.pending@).last() == UiView::Progress(
            ProgressState::Error,
        ),
        s == State::Idle <==> calls(post.pending@).last() == UiView::Progress(ProgressState::Clear),
{
    assert(calls(post.pending@).drop_last() =~= calls(pre.pending@));
}

/// A terminal is pinged with the event's own text.
pub proof fn a_terminal_is_pinged_with_the_text(pre: AnsiHost, e: Event, post: AnsiHost)
    requires
        AnyHost::pinged(AnyHost::Terminal(pre), e, AnyHost::Terminal(post)),
    ensures
        calls(post.pending@).drop_last() == calls(pre.pending@),
        calls(post.pending@).last() == UiView::Notify(e.text@),
{
    assert(calls(post.pending@).drop_last() =~= calls(pre.pending@));
}

// ---------------------------------------------------------------- herdr

/// A report waits behind those before it under the host's pane and number; the number moves on by one, also where
/// the report is not taken because the queue is full or closed.
pub proof fn reports_wait_in_order(h: HerdrView, report: ReportView)
    ensures
        ({
            let n = posted(h, report);
            &&& n.pane == h.pane
            &&& n.closed == h.closed
            &&& h.seq < u64::MAX ==> n.seq == h.seq + 1
            &&& h.seq == u64::MAX ==> n.seq == 0
            &&& !h.closed && h.queue.len() < 32 ==> {
                &&& n.queue.len() == h.queue.len() + 1
                &&& n.queue.drop_last() == h.queue
                &&& n.queue.last().pane == h.pane
                &&& n.queue.last().seq == h.seq
                &&& n.queue.last().report == report
            }
            &&& h.closed || h.queue.len() >= 32 ==> n.queue == h.queue
        }),
{
    if !h.closed && h.queue.len() < 32 {
        assert(posted(h, report).queue.drop_last() =~= h.queue);
    }
}

/// A host that is closed gives its pane back as its last report.
pub proof fn closing_gives_the_pane_back(h: HerdrView)
    requires
        !h.closed,
        h.queue.len() < 32,
    ensures
        released(h).closed,
        released(h).queue.len() == h.queue.len() + 1,
        released(h).queue.last().report is Release,
        released(h).queue.last().pane == h.pane,
        released(h).queue.drop_last() == h.queue,
{
    assert(released(h).queue.drop_last() =~= h.queue);
}

/// A pane at work is working, one that waits for input is blocked, and one that is done is idle, whether it
/// failed or not.
pub proof fn a_pane_is_told_the_state(s: State)
    ensures
        lifecycle_of(s) == "working"@ <==> s == State::Busy,
        lifecycle_of(s) == "blocked"@ <==> s == State::NeedsInput,
        lifecycle_of(s) == "idle"@ <==> s == State::Idle || s == State::Error,
{
    reveal_strlit("working");
    reveal_strlit("blocked");
    reveal_strlit("idle");
    assert("working"@[0] == 'w' && "blocked"@[0] == 'b' && "idle"@[0] == 'i');
}

/// A command names the pane, the number and what is reported: a state behind its flag, or a session's id and path
/// behind theirs.
pub proof fn commands_carry_the_report(r: RequestView)
    ensures
        ({
            let words = argv_of(r);
            &&& words.len() >= 9
            &&& words[0] == "pane"@
            &&& words[2] == r.pane
            &&& words[4] == "iota"@
            &&& words[6] == "iota"@
            &&& words[7] == "--seq"@
            &&& words[8] == decimal_of(r.seq as nat)
            &&& r.report matches ReportView::State(s) ==> words[1] == "report-agent"@ && words.skip(9)
                == seq!["--state"@, s]
            &&& r.report matches ReportView::Session(id, path) ==> words[1]
                == "report-agent-session"@ && words.skip(9) == seq![
                "--agent-session-id"@,
                id,
                "--agent-session-path"@,
                path,
            ]
            &&& r.report is Release ==> words[1] == "release-agent"@ && words.len() == 9
        }),
{
    let words = argv_of(r);
    assert(words.skip(9) =~= report_args(r.report));
}

proof fn last_entry_counts<T>(s: Seq<(Seq<char>, T)>, i: int)
    requires
        0 <= i < s.len(),
        forall|j: int| i < j < s.len() ==> (#[trigger] s[j]).0 != s[i].0,
    ensures
        map_of(s).contains_key(s[i].0),
        map_of(s)[s[i].0] == s[i].1,
    decreases s.len(),
{
    if i < s.len() - 1 {
        assert(s.last() == s[s.len() - 1]);
        last_entry_counts(s.drop_last(), i);
    }
}

/// An object has the member of every entry that no later one of the same key replaces.
pub proof fn objects_have_their_members(s: Seq<(Seq<char>, JsonNode)>, i: int)
    requires
        0 <= i < s.len(),
        forall|j: int| i < j < s.len() ==> (#[trigger] s[j]).0 != s[i].0,
    ensures
        member(object_node(s), s[i].0) == Some(s[i].1),
{
    last_entry_counts(s, i);
    pairs_have_the_map(s);
}

/// A request names its number and what it asks for, and its parameters are beside them.
pub proof fn requests_name_their_method(r: RequestView)
    ensures
        member(request_node(r), "id"@) == Some(
            JsonNode::Text("iota"@ + ":"@ + decimal_of(r.seq as nat)),
        ),
        r.report is State ==> member(request_node(r), "method"@) == Some(
            JsonNode::Text("pane.report_agent"@),
        ),
        r.report is Session ==> member(request_node(r), "method"@) == Some(
            JsonNode::Text("pane.report_agent_session"@),
        ),
        r.report is Release ==> member(request_node(r), "method"@) == Some(
            JsonNode::Text("pane.release_agent"@),
        ),
        member(request_node(r), "params"@) == Some(params_node(r)),
{
    reveal_strlit("id");
    reveal_strlit("method");
    reveal_strlit("params");
    assert("method"@[0] == 'm' && "params"@[0] == 'p' && "id"@[0] == 'i');
    let s = seq![
        crate::host::herdr::text_member("id"@, NAME@ + ":"@ + decimal_of(r.seq as nat)),
        crate::host::herdr::text_member("method"@, crate::host::herdr::method_of(r.report)),
        ("params"@, params_node(r)),
    ];
    assert(request_node(r) == object_node(s));
    objects_have_their_members(s, 0);
    objects_have_their_members(s, 1);
    objects_have_their_members(s, 2);
}

/// The parameters of a request name the pane, who reports, the number, and what is reported.
pub proof fn requests_carry_the_report(r: RequestView)
    ensures
        member(params_node(r), "pane_id"@) == Some(JsonNode::Text(r.pane)),
        member(params_node(r), "source"@) == Some(JsonNode::Text("iota"@)),
        member(params_node(r), "agent"@) == Some(JsonNode::Text("iota"@)),
        member(params_node(r), "seq"@) == Some(JsonNode::Number(decimal_of(r.seq as nat))),
        r.report matches ReportView::State(s) ==> member(params_node(r), "state"@) == Some(
            JsonNode::Text(s),
        ),
        r.report matches ReportView::Session(id, path) ==> member(
            params_node(r),
            "agent_session_id"@,
        ) == Some(JsonNode::Text(id)) && member(params_node(r), "agent_session_path"@) == Some(
            JsonNode::Text(path),
        ),
{
    reveal_strlit("pane_id");
    reveal_strlit("source");
    reveal_strlit("agent");
    reveal_strlit("seq");
    reveal_strlit("state");
    reveal_strlit("agent_session_id");
    reveal_strlit("agent_session_path");
    assert("agent"@[0] == 'a' && "state"@[0] == 's');
    let s = seq![
        crate::host::herdr::text_member("pane_id"@, r.pane),
        crate::host::herdr::text_member("source"@, NAME@),
        crate::host::herdr::text_member("agent"@, NAME@),
        ("seq"@, JsonNode::Number(decimal_of(r.seq as nat))),
    ] + crate::host::herdr::report_members(r.report);
    assert(params_node(r) == object_node(s));
    assert(s[0].0.len() == 7 && s[1].0.len() == 6 && s[2].0.len() == 5 && s[3].0.len() == 3);
    assert(s[2].0[0] == 'a');
    match r.report {
        ReportView::State(x) => {
            assert(s.len() == 5 && s[4] == crate::host::herdr::text_member("state"@, x));
            assert(s[4].0.len() == 5 && s[4].0[0] == 's');
        },
        ReportView::Session(id, path) => {
            assert(s.len() == 6 && s[4] == crate::host::herdr::text_member("agent_session_id"@, id));
            assert(s[5] == crate::host::herdr::text_member("agent_session_path"@, path));
            assert(s[4].0.len() == 16 && s[5].0.len() == 18);
        },
        ReportView::Release => {
            assert(s.len() == 4);
        },
    }
    assert forall|i: int, j: int| 0 <= i < j < s.len() implies (#[trigger] s[i]).0 != (
    #[trigger] s[j]).0 by {
        assert(j == 1 || j == 2 || j == 3 || j == 4 || j == 5);
        assert(i == 0 || i == 1 || i == 2 || i == 3 || i == 4);
    }
    objects_have_their_members(s, 0);
    objects_have_their_members(s, 1);
    objects_have_their_members(s, 2);
    objects_have_their_members(s, 3);
    match r.report {
        ReportView::State(_) => {
            objects_have_their_members(s, 4);
        },
        ReportView::Session(_, _) => {
            objects_have_their_members(s, 4);
            objects_have_their_members(s, 5);
        },
        ReportView::Release => {},
    }
}

/// A pane tells its host, its id, and its workspace and tab where it has them.
pub proof fn a_pane_tells_where_it_is(p: Pane)
    ensures
        pane_facts(p)[0] == ("host"@, "herdr"@),
        pane_facts(p)[1] == ("herdr pane"@, p.id@),
        p.workspace matches Some(w) ==> pane_facts(p)[2] == ("herdr workspace"@, w@),
        p.tab matches Some(t) ==> pane_facts(p).last() == ("herdr tab"@, t@),
        pane_facts(p).len() == 2 + (if p.workspace is Some {
            1int
        } else {
            0
        }) + (if p.tab is Some {
            1int
        } else {
            0
        }),
{
}

/// A run is inside herdr only where every one of its variables says so, and the socket can be spoken to or the
/// program is named.
pub proof fn herdr_needs_its_variables(env: EnvView, sockets: bool)
    ensures
        inside_herdr(env, sockets) ==> env.vars.contains_key("HERDR_ENV"@) && env.vars["HERDR_ENV"@]
            == "1"@ && env.vars.contains_key("HERDR_PANE_ID"@) && env.vars.contains_key(
            "HERDR_SOCKET_PATH"@,
        ),
        inside_herdr(env, false) ==> env.vars.contains_key("HERDR_BIN_PATH"@),
        var_of(env, "HERDR_ENV"@) == Some("1"@) && var_of(env, "HERDR_PANE_ID"@) is Some && var_of(
            env,
            "HERDR_SOCKET_PATH"@,
        ) is Some ==> inside_herdr(env, true) && (var_of(env, "HERDR_BIN_PATH"@) is Some
            ==> inside_herdr(env, false)),
{
}

// ---------------------------------------------------------------- cmux

/// A workspace loads exactly while a run is at work, every state has its own status, and closing ends the loading
/// and clears the status.
pub proof fn a_workspace_loads_while_at_work(s: State)
    ensures
        state_batch(s).contains(loading(true)) <==> s == State::Busy,
        state_batch(s).contains(loading(false)) <==> s != State::Busy,
        final_batch().contains(loading(false)),
        final_batch().last()[0] == "clear-status"@,
        loading(true)[2] == "on"@ && loading(false)[2] == "off"@,
{
    reveal_strlit("on");
    reveal_strlit("off");
    reveal_strlit("workspace");
    reveal_strlit("set-status");
    reveal_strlit("clear-status");
    assert(loading(true)[2].len() == 2 && loading(false)[2].len() == 3);
    assert(loading(true)[0].len() == 9 && loading(false)[0].len() == 9);
    let b = state_batch(s);
    assert(b.len() == 2);
    assert(s == State::Busy ==> b[0][0].len() == 10 && b[1] == loading(true));
    assert(s != State::Busy ==> b[0] == loading(false) && b[1][0].len() == 10);
    assert(final_batch()[0] == loading(false));
    if b.contains(loading(true)) {
        let i = choose|i: int| 0 <= i < b.len() && b[i] == loading(true);
        assert(i == 0 || i == 1);
    }
    if b.contains(loading(false)) {
        let i = choose|i: int| 0 <= i < b.len() && b[i] == loading(false);
        assert(i == 0 || i == 1);
    }
}

/// A workspace says in words what the run is doing.
pub proof fn a_workspace_says_the_state(s: State)
    ensures
        s == State::Busy ==> state_batch(s)[0][2] == "Running"@,
        s == State::NeedsInput ==> state_batch(s)[1][2] == "Needs input"@,
        s == State::Error ==> state_batch(s)[1][2] == "Failed"@,
        s == State::Idle ==> state_batch(s)[1][2] == "Idle"@,
        s == State::Busy ==> state_batch(s)[0][0] == "set-status"@ && state_batch(s)[0][1] == "iota"@,
        s != State::Busy ==> state_batch(s)[1][0] == "set-status"@ && state_batch(s)[1][1] == "iota"@,
{
}

// ---------------------------------------------------------------- the background

/// A grey is dark below the middle, and at it or above it is light.
pub proof fn greys_are_dark_below_the_middle(s: Seq<char>)
    requires
        is_color(s),
        channel(s[1], s[2]) == channel(s[3], s[4]),
        channel(s[3], s[4]) == channel(s[5], s[6]),
    ensures
        darkness(s) == Some(channel(s[1], s[2]) < 128),
{
}

/// A color is dark or light by its red, green and blue in parts of 299, 587 and 114 to the thousand; brightening a
/// light color leaves it light.
pub proof fn colors_are_weighed(s: Seq<char>, t: Seq<char>)
    requires
        is_color(s),
        is_color(t),
    ensures
        darkness(s) == Some(
            299 * channel(s[1], s[2]) + 587 * channel(s[3], s[4]) + 114 * channel(s[5], s[6])
                < 128000,
        ),
        channel(s[1], s[2]) <= channel(t[1], t[2]) && channel(s[3], s[4]) <= channel(t[3], t[4])
            && channel(s[5], s[6]) <= channel(t[5], t[6]) && darkness(t) == Some(true)
            ==> darkness(s) == Some(true),
{
}

/// A digit of a color counts the same in either case, and what is no such digit is none.
pub proof fn hex_digits_count_to_fifteen(c: char)
    ensures
        hex_value(c) matches Some(v) ==> 0 <= v < 16,
        '0' <= c <= '9' ==> hex_value(c) == Some(c as int - 48),
        'a' <= c <= 'f' ==> hex_value(c) == Some(c as int - 87),
        'A' <= c <= 'F' ==> hex_value(c) == Some(c as int - 55),
        !('0' <= c <= '9') && !('a' <= c <= 'f') && !('A' <= c <= 'F') ==> hex_value(c) is None,
{
}

/// A text that is not a hash and six hex digits is no color.
pub proof fn colors_are_a_hash_and_six_digits(s: Seq<char>)
    ensures
        s.len() != 7 ==> darkness(s) is None,
        s.len() == 7 && s[0] != '#' ==> darkness(s) is None,
        darkness(s) is Some ==> forall|i: int|
            1 <= i < 7 ==> hex_value(#[trigger] s[i]) is Some,
{
}

/// The background of a reply is that of the color it names; a reply without one tells none.
pub proof fn replies_tell_their_background(
    grid: Seq<(Seq<char>, JsonNode)>,
    hex: Seq<char>,
)
    ensures
        reply_darkness(
            Some(
                object_node(
                    seq![
                        (
                            "render_grid"@,
                            object_node(seq![("terminal_background"@, JsonNode::Text(hex))]),
                        ),
                    ],
                ),
            ),
        ) == darkness(hex),
        reply_darkness(None) is None,
{
    let inner = seq![("terminal_background"@, JsonNode::Text(hex))];
    objects_have_their_members(inner, 0);
    let outer = seq![("render_grid"@, object_node(inner))];
    objects_have_their_members(outer, 0);
}

/// The question goes to the surface the run stands in.
pub proof fn the_surface_is_asked(surface: Seq<char>)
    ensures
        query_words(surface).len() == 3,
        query_words(surface)[0] == "rpc"@,
        query_words(surface)[1] == "terminal.replay"@,
        query_words(surface)[2] == crate::json::json_line_of(
            object_node(seq![("terminal_id"@, JsonNode::Text(surface))]),
        ),
        member(object_node(seq![("terminal_id"@, JsonNode::Text(surface))]), "terminal_id"@) == Some(
            JsonNode::Text(surface),
        ),
{
    objects_have_their_members(seq![("terminal_id"@, JsonNode::Text(surface))], 0);
}

} // verus!
