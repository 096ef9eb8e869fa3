//! What holds of a chat from its start to its end: which session it is about, under which values it runs, what it
//! is told, and what it comes to.

use vstd::prelude::*;
use vstd::string::*;

use crate::cmd::error::{CliError, RunError, SetupError};
use crate::cmd::interactive::open::{step as opening_step, OpenAction, OpenEvent, PickReply, Stage};
use crate::cmd::interactive::picker::{label_of, SessionInfo};
use crate::cmd::interactive::session::{step, RunAction, RunEvent, RunStageView};
use crate::cmd::interactive::wire::{
    caution_lines, comes_to_wiring, is_plan, is_title, resumed_text, start_params, window_case,
    window_warning, Live, NewSession, SessionPlan, TitleProvider, WindowCase, WireFacts, Wiring,
};
use crate::cmd::interactive::wiring::{
    begins_with, leads_to, Bundle, WireAction, WireContext, WireEvent, WireStage, Wired,
};
use crate::cmd::interactive::{Closing, ReplError};
use crate::cmd::resolve::SettingsView;
use crate::cmd::show_laws::stands_between;
use crate::cmd::window::{counted, is_size, size_parts, tokens_in, WindowValue};
use crate::config::{ConfigView, ResolvedView};
use crate::provider::{effort_named, kind_name, Catalog, ProviderKind};
use crate::session::{ParamSource, SessionMeta};
use crate::text::{begins, decimal_of, ends, occurs};

verus! {

// ---------------------------------------------------------------- opening the interface

/// The interface is painted for the background that was found: what was detected is what is picked, wired and
/// started under, and what the chat is given.
pub proof fn the_background_is_kept(has_picker: bool, dark: bool, reply: PickReply)
    requires
        reply is Left,
    ensures
        ({
            let (s1, a1) = opening_step(has_picker, Stage::Detecting, OpenEvent::Detected(dark));
            let (s2, a2) = if has_picker {
                opening_step(has_picker, s1, OpenEvent::Picked(reply))
            } else {
                (s1, a1)
            };
            let (s3, a3) = opening_step(has_picker, s2, OpenEvent::Wired(Ok(())));
            let (s4, a4) = opening_step(has_picker, s3, OpenEvent::Pushed);
            let (s5, a5) = opening_step(has_picker, s4, OpenEvent::Started(Ok(())));
            &&& has_picker ==> a1 == (OpenAction::Pick { dark })
            &&& a2 matches OpenAction::Wire { dark: d, .. } && d == dark
            &&& a3 is PushTitle
            &&& a4 == (OpenAction::Start { dark })
            &&& a5 == OpenAction::Finished(Ok(dark))
            &&& s5 is Over
        }),
{
}

/// What was picked is where the cursor stood when the picker was left; a picker that was cancelled picks nothing.
pub proof fn the_pick_is_under_the_cursor(dark: bool, cancelled: bool, cursors: Vec<usize>)
    ensures
        ({
            let (s, a) = opening_step(
                true,
                Stage::Picking { dark },
                OpenEvent::Picked(PickReply::Left { cancelled, cursors }),
            );
            &&& a matches OpenAction::Wire { chosen, .. } && {
                &&& cancelled ==> chosen is None
                &&& !cancelled && cursors@.len() > 0 ==> chosen == Some(cursors@[0])
                &&& cursors@.len() == 0 ==> chosen is None
            }
        }),
{
}

/// An interface that does not open ends with what went wrong, and gives the title back where it took it.
pub proof fn openings_that_fail_say_why(has_picker: bool, dark: bool, text: String, e: CliError)
    ensures
        opening_step(
            has_picker,
            Stage::Picking { dark },
            OpenEvent::Picked(PickReply::Failed(text)),
        ).1 == OpenAction::Finished(Err::<bool, _>(CliError::Run(RunError::Io(text)))),
        opening_step(
            has_picker,
            Stage::Picking { dark },
            OpenEvent::Picked(PickReply::Lost(text)),
        ).1 == OpenAction::Finished(Err::<bool, _>(CliError::Run(RunError::Join(text)))),
        opening_step(has_picker, Stage::Wiring { dark }, OpenEvent::Wired(Err(e))).1
            == OpenAction::Finished(Err::<bool, _>(e)),
        ({
            let (s, a) = opening_step(
                has_picker,
                Stage::Starting { dark },
                OpenEvent::Started(Err(text)),
            );
            a is PopTitle && opening_step(has_picker, s, OpenEvent::Popped).1
                == OpenAction::Finished(Err::<bool, _>(CliError::Run(RunError::Io(text))))
        }),
{
}

// ---------------------------------------------------------------- what a chat comes to

/// A chat that ended is taken down in order, and comes to what ended it: an error of the chat goes before one of
/// closing its interface, and what the other closings say changes nothing.
pub proof fn a_chat_comes_to_what_ended_it(
    rows: nat,
    r: Result<(), ReplError>,
    first: Result<(), String>,
    others: Seq<Result<(), String>>,
)
    requires
        others.len() == 3,
    ensures
        ({
            let (s0, a0) = step(rows, RunStageView::Chatting, RunEvent::Chatted(r));
            let (s1, a1) = step(rows, s0, RunEvent::Closed(first));
            let (s2, a2) = step(rows, s1, RunEvent::Closed(others[0]));
            let (s3, a3) = step(rows, s2, RunEvent::Closed(others[1]));
            let (s4, a4) = step(rows, s3, RunEvent::Closed(others[2]));
            &&& a0 == RunAction::Close(Closing::Interface)
            &&& a1 == RunAction::Close(Closing::Title)
            &&& a2 == RunAction::Close(Closing::Connect)
            &&& a3 == RunAction::Close(Closing::Servers)
            &&& s4 is Over
            &&& r matches Err(ReplError::Session(e)) ==> a4 == RunAction::Finished(
                Err(CliError::Setup(SetupError::Session(e))),
            )
            &&& r matches Err(ReplError::Io(e)) ==> a4 == RunAction::Finished(
                Err(CliError::Run(RunError::Io(e))),
            )
            &&& r matches Err(ReplError::Ui(e)) ==> a4 == RunAction::Finished(
                Err(CliError::Run(RunError::Ui(e))),
            )
            &&& r is Ok && first is Ok ==> a4 == RunAction::Finished(Ok(()))
            &&& r is Ok ==> (first matches Err(e) ==> a4 == RunAction::Finished(
                Err(CliError::Run(RunError::Io(e))),
            ))
        }),
{
}

/// An interface that did not open is not closed: the connections and the servers are, and the run comes to what
/// went wrong.
pub proof fn a_chat_that_did_not_open_says_why(
    rows: nat,
    picks: bool,
    stage: Stage,
    event: OpenEvent,
    e: CliError,
    a: Result<(), String>,
    b: Result<(), String>,
)
    requires
        opening_step(picks, stage, event).1 == OpenAction::Finished(Err::<bool, _>(e)),
    ensures
        ({
            let (s0, a0) = step(rows, RunStageView::Opening(picks, stage), RunEvent::Opened(event));
            let (s1, a1) = step(rows, s0, RunEvent::Closed(a));
            let (s2, a2) = step(rows, s1, RunEvent::Closed(b));
            &&& a0 == RunAction::Close(Closing::Connect)
            &&& a1 == RunAction::Close(Closing::Servers)
            &&& a2 == RunAction::Finished(Err(e))
        }),
{
}

/// A picker is opened exactly where there are sessions to pick from; sessions that cannot be listed end the run
/// before anything is connected.
pub proof fn pickers_need_sessions(rows: nat, text: String, found: Vec<SessionInfo>)
    ensures
        step(rows, RunStageView::Connecting, RunEvent::Connected) == (
            RunStageView::Opening(rows > 0, Stage::Detecting),
            RunAction::Open(OpenAction::Detect),
        ),
        step(rows, RunStageView::Listing, RunEvent::Listed(Err(text))) == (
            RunStageView::Over,
            RunAction::Finished(Err(CliError::Setup(SetupError::ListSessions(text)))),
        ),
        step(rows, RunStageView::Listing, RunEvent::Listed(Ok(found))) == (
            RunStageView::Connecting,
            RunAction::Connect,
        ),
{
}

/// A chat begins, under the background its interface was opened for, as soon as that is open.
pub proof fn an_open_interface_chats(
    rows: nat,
    picks: bool,
    stage: Stage,
    event: OpenEvent,
    dark: bool,
)
    requires
        opening_step(picks, stage, event).1 == OpenAction::Finished(Ok::<_, CliError>(dark)),
    ensures
        step(rows, RunStageView::Opening(picks, stage), RunEvent::Opened(event)) == (
            RunStageView::Chatting,
            RunAction::Chat { dark },
        ),
{
}

// ---------------------------------------------------------------- what is shown

/// A session is offered by its title and then its model.
pub proof fn labels_begin_with_the_title(s: SessionInfo, project: Option<Seq<char>>)
    ensures
        s.title@.len() > 0 ==> begins(label_of(s, project), s.title@ + " · "@ + s.model@),
        s.title@.len() == 0 ==> begins(label_of(s, project), "(untitled)"@ + " · "@ + s.model@),
{
    let label = label_of(s, project);
    let title = if s.title@.len() == 0 {
        "(untitled)"@
    } else {
        s.title@
    };
    let head = title + " · "@ + s.model@;
    assert(label.subrange(0, head.len() as int) =~= head);
}

/// A session is offered with its age between its model and its messages.
pub proof fn labels_tell_the_age(s: SessionInfo, project: Option<Seq<char>>)
    ensures
        s.age matches Some(a) ==> occurs(label_of(s, project), s.model@ + " · "@ + a@ + " · "@),
        s.age is None ==> occurs(label_of(s, project), s.model@ + " · "@ + "unknown"@ + " · "@),
{
    let label = label_of(s, project);
    let title = if s.title@.len() == 0 {
        "(untitled)"@
    } else {
        s.title@
    };
    let age = match s.age {
        Some(a) => a@,
        None => "unknown"@,
    };
    let head = title + " · "@;
    let mid = s.model@ + " · "@ + age + " · "@;
    let rest = label.skip((head.len() + mid.len()) as int);
    assert(label.take((head.len() + mid.len()) as int) =~= head + mid);
    assert(label =~= head + mid + rest);
    stands_between(head, mid, rest);
}

/// A session is offered with the number of its messages, and with its project behind it where that is known.
pub proof fn labels_end_with_the_messages(s: SessionInfo, project: Option<Seq<char>>)
    ensures
        project matches Some(p) ==> ends(
            label_of(s, project),
            " · "@ + decimal_of(s.message_count as nat) + " msgs"@ + " ["@ + p + "]"@,
        ),
        project is None ==> ends(
            label_of(s, project),
            " · "@ + decimal_of(s.message_count as nat) + " msgs"@,
        ),
{
    let label = label_of(s, project);
    let count = " · "@ + decimal_of(s.message_count as nat) + " msgs"@;
    let tail = match project {
        Some(p) => count + " ["@ + p + "]"@,
        None => count,
    };
    assert(label.subrange(label.len() - tail.len(), label.len() - tail.len() + tail.len())
        =~= tail);
}

/// A resumed session is announced by its id and the number of its messages.
pub proof fn announcements_name_the_session(id: Seq<char>, messages: nat)
    ensures
        begins(resumed_text(id, messages), "Resumed session "@ + id),
        ends(resumed_text(id, messages), " ("@ + decimal_of(messages) + " messages)"@),
{
    let t = resumed_text(id, messages);
    let head = "Resumed session "@ + id;
    let tail = " ("@ + decimal_of(messages) + " messages)"@;
    assert(t =~= head + tail);
    assert(t.subrange(0, head.len() as int) =~= head);
    assert(t.subrange(t.len() - tail.len(), t.len() - tail.len() + tail.len()) =~= tail);
}

/// Every caution has its own line, in order.
pub proof fn every_caution_is_a_line(v: Seq<Seq<char>>, x: Seq<char>)
    ensures
        caution_lines(Seq::empty()).len() == 0,
        caution_lines(v.push(x)) == caution_lines(v) + "⚠ "@ + x + "\n"@,
{
    assert(v.push(x).drop_last() =~= v);
    assert(caution_lines(v) + ("⚠ "@ + x + "\n"@) =~= caution_lines(v) + "⚠ "@ + x + "\n"@);
}

/// A window is warned of exactly where there is one and the provider counts no tokens; the warning names the
/// provider.
pub proof fn windows_need_token_counts(tokens: u64, reports_usage: bool, kind: ProviderKind)
    ensures
        tokens == 0 || reports_usage ==> window_warning(tokens, reports_usage, kind).len() == 0,
        tokens > 0 && !reports_usage ==> occurs(
            window_warning(tokens, reports_usage, kind),
            kind_name(kind),
        ) && begins(window_warning(tokens, reports_usage, kind), "Warning: "@),
{
    if tokens > 0 && !reports_usage {
        let head = "Warning: context window does not apply to provider type "@;
        reveal_strlit("Warning: context window does not apply to provider type ");
        reveal_strlit("Warning: ");
        let tail = " (no token accounting)\n"@;
        stands_between(head, kind_name(kind), tail);
        let w = window_warning(tokens, reports_usage, kind);
        assert(w.subrange(0, "Warning: "@.len() as int) =~= "Warning: "@);
    }
}

// ---------------------------------------------------------------- the session and its values

/// A new session records the run it is made for: its provider, its model, its endpoint, its agent and where it
/// stands.
pub proof fn a_new_session_records_its_run(
    plan: SessionPlan,
    ephemeral: bool,
    settings: SettingsView,
    kind: ProviderKind,
    live: Live,
    s: NewSession,
)
    requires
        is_plan(plan, false, ephemeral, settings, kind, live),
        plan == SessionPlan::CreateNow(s) || plan == SessionPlan::CreateLater(s),
    ensures
        s.kind == kind,
        s.model@ == live.model@,
        s.base_url@ == settings.base_url,
        s.agent@ == settings.resolved.agent_name,
        s.project == settings.agent_mode,
        live.scope matches Some(root) ==> s.cwd@ == root@,
        live.scope is None ==> (live.cwd matches Some(dir) ==> s.cwd@ == dir@),
        live.scope is None && live.cwd is None ==> s.cwd@.len() == 0,
        live.temperature is None ==> s.temperature == settings.temperature,
        ephemeral && live.temperature is Some ==> s.temperature == live.temperature,
        !ephemeral ==> s.temperature == settings.temperature,
        plan is CreateLater <==> ephemeral,
{
}

/// A resumed run makes no session; another makes one, at once where it is saved and when it is asked for where
/// it is not.
pub proof fn only_new_runs_make_sessions(
    plan: SessionPlan,
    resumed: bool,
    ephemeral: bool,
    settings: SettingsView,
    kind: ProviderKind,
    live: Live,
)
    requires
        is_plan(plan, resumed, ephemeral, settings, kind, live),
    ensures
        resumed <==> plan is Resumed,
        !resumed && ephemeral <==> plan is CreateLater,
        !resumed && !ephemeral <==> plan is CreateNow,
{
}

/// Titles are asked of the run's own endpoint and model, and of none where the model paints.
pub proof fn titles_come_from_the_same_endpoint(
    r: Option<TitleProvider>,
    settings: SettingsView,
    kind: ProviderKind,
    paints: bool,
)
    requires
        is_title(r, settings, kind, paints),
    ensures
        r is None <==> paints,
        r matches Some(t) ==> t.kind == kind && t.api_key@ == settings.api_key && t.base_url@
            == settings.base_url && t.model@ == settings.model && t.temperature
            == settings.temperature,
{
}

/// A window counts the tokens its declaration says, the agent's before the model's; a declaration that is no size
/// is an error that says which of the two it stands in.
pub proof fn declared_windows_are_counted(r: ResolvedView, read: Option<WindowValue>)
    ensures
        r.agent.context_window.len() == 0 && r.model.context_window.len() == 0 <==> window_case(
            r,
            read,
        ) is Undeclared,
        window_case(r, read) matches WindowCase::Tokens(n) ==> {
            read matches Some(v) && v.value.positive() && is_size(v.scaled) && n == tokens_in(
                v.scaled,
            ) as u64
        },
        window_case(r, read) matches WindowCase::Empty(l) ==> if r.agent.context_window.len() > 0 {
            l == "agent context_window"@ && size_parts(r.agent.context_window) is None
        } else {
            l == "config context_window"@ && size_parts(r.model.context_window) is None
        },
        window_case(r, read) matches WindowCase::NotANumber(l, text) ==> if
            r.agent.context_window.len() > 0 {
            l == "agent context_window"@ && (size_parts(r.agent.context_window) matches Some(p)
                && p.1 == text)
        } else {
            l == "config context_window"@ && (size_parts(r.model.context_window) matches Some(p)
                && p.1 == text)
        },
        window_case(r, read) matches WindowCase::OutOfRange(l) ==> l == if
            r.agent.context_window.len() > 0 {
            "agent context_window"@
        } else {
            "config context_window"@
        },
        r.agent.context_window.len() > 0 && size_parts(r.agent.context_window) is None
            ==> window_case(r, read) is Empty,
        r.agent.context_window.len() > 0 && size_parts(r.agent.context_window) is Some && (
        read matches Some(v) && v.value.positive() && is_size(v.scaled)) ==> window_case(r, read)
            is Tokens,
        r.agent.context_window.len() == 0 && r.model.context_window.len() > 0 && size_parts(
            r.model.context_window,
        ) is Some && (read matches Some(v) && v.value.positive() && is_size(v.scaled))
            ==> window_case(r, read) is Tokens,
        r.agent.context_window.len() > 0 && size_parts(r.agent.context_window) is Some && read
            is None ==> window_case(r, read) is NotANumber,
{
}

/// A new run stands under the declared values: the window that was counted, the effort and the temperature of the
/// agent, and the model's where the agent has none.
pub proof fn new_runs_stand_under_the_config(
    r: ResolvedView,
    window: Option<u64>,
    kind: ProviderKind,
)
    ensures
        ({
            let p = start_params(r, window, kind, None);
            &&& window matches Some(w) ==> p.context_window.value == w && p.context_window.source
                == ParamSource::Config
            &&& window is None ==> p.context_window.value == 0 && p.context_window.source
                == ParamSource::Builtin
            &&& r.agent.effort.len() > 0 ==> p.effort.value == r.agent.effort
            &&& r.agent.effort.len() == 0 && r.model.effort.len() > 0 ==> p.effort.value
                == r.model.effort
            &&& r.agent.effort.len() == 0 && r.model.effort.len() == 0 ==> p.effort.value.len() == 0
            &&& r.agent.temperature is Some ==> p.temperature.value == r.agent.temperature
            &&& r.agent.temperature is None ==> p.temperature.value == r.model.temperature
        }),
{
}

/// A session of the same provider brings its values back; one of another provider brings none, and runs as a new
/// one would.
pub proof fn sessions_bring_their_values_to_their_provider(
    r: ResolvedView,
    window: Option<u64>,
    kind: ProviderKind,
    meta: SessionMeta,
)
    ensures
        meta.provider@ != kind_name(kind) ==> start_params(r, window, kind, Some(meta))
            == start_params(r, window, kind, None),
        meta.provider@ == kind_name(kind) ==> {
            let p = start_params(r, window, kind, Some(meta));
            &&& meta.context_window > 0 ==> p.context_window.value == meta.context_window
            &&& effort_named(meta.effort@) is Some ==> p.effort.value == meta.effort@
            &&& meta.temperature is Some ==> p.temperature.value == meta.temperature
            &&& meta.top_p is Some ==> p.top_p.value == meta.top_p
        },
{
}

// ---------------------------------------------------------------- the wiring

/// The session that is resumed is the one that was named: its id is resolved, what that gives is read, replayed
/// and announced with the number of its messages.
pub proof fn the_named_session_is_resumed(
    ctx: WireContext<'_>,
    plan: SessionPlan,
    fragment: String,
    picked: Option<String>,
    id: String,
    bundle: Bundle,
    s0: WireStage,
    a0: WireAction,
    s1: WireStage,
    a1: WireAction,
    s2: WireStage,
    a2: WireAction,
    s3: WireStage,
    a3: WireAction,
    out: Seq<Seq<char>>,
    err: Seq<Seq<char>>,
)
    requires
        id@.len() > 0,
        begins_with(Some(Some(fragment)), picked, plan, s0, a0),
        leads_to(ctx, plan, s0, WireEvent::Resolved(Ok(id)), s1, a1, out[0], err[0]),
        leads_to(ctx, plan, s1, WireEvent::Resumed(Ok(bundle)), s2, a2, out[1], err[1]),
        leads_to(ctx, plan, s2, WireEvent::Replayed, s3, a3, out[2], err[2]),
    ensures
        a0 matches WireAction::ResolveId(f) && f@ == fragment@,
        a1 matches WireAction::Resume(i) && i@ == id@,
        a2 matches WireAction::Replay { overrides_model, agent_exists } && overrides_model == (
        ctx.settings@.model.len() > 0) && agent_exists == ctx.cfg@.agents.contains_key(
            bundle.meta.agent@,
        ),
        a3 is Survey,
        s3 == (WireStage::Surveying { meta: Some(bundle.meta) }),
        out[0].len() == 0 && out[1].len() == 0,
        begins(out[2], "Resumed session "@ + id@),
        occurs(out[2], " ("@ + decimal_of(bundle.messages as nat) + " messages)"@),
{
    announcements_name_the_session(id@, bundle.messages as nat);
    let t = resumed_text(id@, bundle.messages as nat);
    let head = "Resumed session "@ + id@;
    let tail = " ("@ + decimal_of(bundle.messages as nat) + " messages)"@;
    assert(out[2] == t + "\n\n"@);
    assert(t =~= head + tail);
    assert(out[2] =~= head + tail + "\n\n"@);
    stands_between(head, tail, "\n\n"@);
    assert(out[2].subrange(0, head.len() as int) =~= head);
}

/// The session that was picked is resumed by its id.
pub proof fn the_picked_session_is_resumed(
    plan: SessionPlan,
    id: String,
    s: WireStage,
    a: WireAction,
)
    requires
        begins_with(Some(None), Some(id), plan, s, a),
    ensures
        id@.len() > 0 ==> (a matches WireAction::Resume(i) && i@ == id@),
        id@.len() == 0 ==> (a matches WireAction::Finished(
            Err(CliError::Setup(SetupError::NoSessionToResume)),
        )),
{
}

/// A new run makes the session of its plan before it is wired, and one that is not saved makes none.
pub proof fn sessions_are_made_as_planned(
    ctx: WireContext<'_>,
    plan: SessionPlan,
    picked: Option<String>,
    s: WireStage,
    a: WireAction,
)
    requires
        begins_with(None, picked, plan, s, a),
    ensures
        plan matches SessionPlan::CreateNow(n) ==> a == WireAction::Create(n),
        !(plan is CreateNow) ==> a is Survey && s == (WireStage::Surveying { meta: None }),
{
}

/// A session that cannot be read, made or titled ends the wiring with what went wrong.
pub proof fn wirings_that_fail_say_why(
    ctx: WireContext<'_>,
    plan: SessionPlan,
    id: String,
    wiring: Wiring,
    text: String,
    s: WireStage,
    a: WireAction,
    out: Seq<char>,
    err: Seq<char>,
)
    ensures
        leads_to(ctx, plan, WireStage::Resolving, WireEvent::Resolved(Err(text)), s, a, out, err)
            ==> (a matches WireAction::Finished(Err(CliError::Setup(SetupError::Session(m)))) && m@
            == text@),
        leads_to(
            ctx,
            plan,
            WireStage::Resuming { id },
            WireEvent::Resumed(Err(text)),
            s,
            a,
            out,
            err,
        ) ==> a == WireAction::Finished(Err(CliError::Setup(SetupError::Session(text)))),
        leads_to(ctx, plan, WireStage::Creating, WireEvent::Created(Err(text)), s, a, out, err)
            ==> a == WireAction::Finished(Err(CliError::Setup(SetupError::CreateSession(text)))),
        leads_to(
            ctx,
            plan,
            WireStage::Titling { wiring },
            WireEvent::Titled(Err(text)),
            s,
            a,
            out,
            err,
        ) ==> a == WireAction::Finished(Err(CliError::Setup(SetupError::Provider(text)))),
        leads_to(
            ctx,
            plan,
            WireStage::Titling { wiring },
            WireEvent::Titled(Ok(())),
            s,
            a,
            out,
            err,
        ) ==> a == WireAction::Finished(Ok(Wired { plan, wiring })),
{
}

/// What is wired is the run that was settled: its values are those it starts under, titles are asked of its own
/// endpoint, and its parts are built in exactly where there are such tools.
pub proof fn wirings_belong_to_their_run(
    cfg: ConfigView,
    settings: SettingsView,
    kind: ProviderKind,
    catalog: Catalog,
    meta: Option<SessionMeta>,
    facts: WireFacts,
    w: Wiring,
    said: Seq<char>,
)
    requires
        comes_to_wiring(cfg, settings, kind, catalog, meta, facts, Ok(w), said),
    ensures
        w.layers@.agent == settings.resolved.agent,
        w.layers@.provider == settings.resolved.provider_name,
        w.parts.builtin <==> facts.builtin_tools > 0,
        w.title is None <==> facts.paints,
        w.title matches Some(t) ==> t.kind == kind && t.model@ == settings.model && t.api_key@
            == settings.api_key && t.base_url@ == settings.base_url,
        settings.resolved.agent.context_window.len() == 0
            && settings.resolved.model.context_window.len() == 0 ==> w.params@ == start_params(
            settings.resolved,
            None,
            kind,
            meta,
        ),
        facts.reports_usage && meta is None && (facts.window matches Some(v) && v.value.positive()
            && is_size(v.scaled)) && settings.resolved.agent.context_window.len() > 0 && size_parts(
            settings.resolved.agent.context_window,
        ) is Some ==> w.params@.context_window.value == tokens_in(facts.window->0.scaled) as u64,
{
}

} // verus!
