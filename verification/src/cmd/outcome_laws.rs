//! What a run comes to: its exit status, and what it says of what went wrong.

use vstd::prelude::*;
use vstd::string::*;

use crate::app::env::{var_of, vars_of, EnvView};
use crate::app::fs::{hex_of, temp_text};
use crate::cmd::error::{
    agent_hint_text, exit_status, server_hint_text, ArgsError, CliError, RunError, SetupError,
};
use crate::cmd::headless::{start, status_of, step, HeadlessAction, HeadlessEvent, Phase};
use crate::headless::error::ChatError;
use crate::headless::{format_name, format_named, OutputFormat};
use crate::text::{begins, debug_text, decimal_of, ends, joined, occurs, strs, trimmed};

verus! {

/// A run exits with nothing exactly where it came to nothing bad, as interrupted exactly where it was
/// interrupted, and otherwise as failed.
pub proof fn runs_exit_as_they_ended(r: Result<(), CliError>)
    ensures
        exit_status(r) == 0 <==> r is Ok,
        exit_status(r) == 130 <==> (r matches Err(CliError::Run(RunError::Interrupted))),
        exit_status(r) == 0 || exit_status(r) == 1 || exit_status(r) == 130,
{
}

/// A chat that was interrupted ends the run as interrupted, and one that failed with its own error.
pub proof fn a_run_comes_to_what_its_chat_came_to(r: Result<(), ChatError>)
    ensures
        exit_status(status_of(r)) == 0 <==> r is Ok,
        exit_status(status_of(r)) == 130 <==> (r matches Err(ChatError::Interrupted)),
        r matches Err(e) ==> (e != ChatError::Interrupted ==> status_of(r) == Err::<(), CliError>(
            CliError::Run(RunError::Chat(e)),
        )),
{
}

/// A run outside a session connects, chats, closes its servers and comes to what the chat came to.
pub proof fn a_run_outside_a_session(r: Result<(), ChatError>)
    ensures
        ({
            let (p0, a0) = start(false);
            let (p1, a1) = step(false, p0, HeadlessEvent::Connected);
            let (p2, a2) = step(false, p1, HeadlessEvent::Chatted(r));
            let (p3, a3) = step(false, p2, HeadlessEvent::Closed);
            &&& a0 is Connect
            &&& a1 is Chat
            &&& a2 is CloseServers
            &&& a3 == HeadlessAction::Finished(status_of(r))
            &&& p3 is Over
        }),
{
}

/// A run in a session reads it, replays and announces it, connects and chats; what went well is saved, and the
/// servers are closed either way.
pub proof fn a_run_in_a_session(r: Result<(), ChatError>)
    ensures
        ({
            let (p0, a0) = start(true);
            let (p1, a1) = step(true, p0, HeadlessEvent::Resumed(Ok(())));
            let (p2, a2) = step(true, p1, HeadlessEvent::Replayed);
            let (p3, a3) = step(true, p2, HeadlessEvent::Announced);
            let (p4, a4) = step(true, p3, HeadlessEvent::Connected);
            let (p5, a5) = step(true, p4, HeadlessEvent::Chatted(r));
            let (p6, a6) = if r is Ok {
                step(true, p5, HeadlessEvent::Saved)
            } else {
                (p5, a5)
            };
            let (p7, a7) = step(true, p6, HeadlessEvent::Closed);
            &&& a0 is Resume
            &&& a1 is Replay
            &&& a2 is Announce
            &&& a3 is Connect
            &&& a4 is Chat
            &&& r is Ok ==> a5 is Save
            &&& a6 is CloseServers
            &&& a7 == HeadlessAction::Finished(status_of(r))
            &&& p7 is Over
        }),
{
}

/// A session that cannot be read ends the run with what went wrong, before anything is connected.
pub proof fn a_lost_session_ends_the_run(e: CliError)
    ensures
        step(true, Phase::Resuming, HeadlessEvent::Resumed(Err(e))) == (
            Phase::Over,
            HeadlessAction::Finished(Err(e)),
        ),
{
}

/// An agent that is not known is named, with those that are.
pub proof fn unknown_agents_are_named(name: String, agents: Vec<String>)
    ensures
        ({
            let t = (ArgsError::UnknownAgent { name, agents }).text();
            &&& begins(t, "unknown agent "@ + debug_text(name@))
            &&& agents@.len() > 0 ==> ends(t, "configured agents: "@ + joined(strs(agents@), ", "@))
            &&& agents@.len() == 0 ==> ends(t, agent_hint_text(Seq::empty()))
        }),
{
    let t = (ArgsError::UnknownAgent { name, agents }).text();
    let head = "unknown agent "@ + debug_text(name@);
    assert(t.subrange(0, head.len() as int) =~= head);
    if agents@.len() > 0 {
        reveal_strlit("\n  configured agents: ");
        reveal_strlit("configured agents: ");
        let list = joined(strs(agents@), ", "@);
        let tail = "configured agents: "@ + list;
        let hint = agent_hint_text(strs(agents@));
        assert(hint == "\n  configured agents: "@ + list);
        assert(t == head + hint);
        assert(t.subrange(t.len() - tail.len(), t.len() - tail.len() + tail.len()) =~= tail);
    } else {
        assert(strs(agents@) =~= Seq::<Seq<char>>::empty());
        let tail = agent_hint_text(Seq::empty());
        assert(t.subrange(t.len() - tail.len(), t.len() - tail.len() + tail.len()) =~= tail);
    }
}

/// A server that is not known is named, with those that are.
pub proof fn unknown_servers_are_named(name: String, servers: Vec<String>, number: Seq<char>)
    ensures
        ({
            let t = (SetupError::McpUnknown { name, servers }).text(number);
            &&& begins(t, "mcp: no server named "@ + debug_text(name@))
            &&& servers@.len() > 0 ==> ends(t, joined(strs(servers@), ", "@))
        }),
{
    let t = (SetupError::McpUnknown { name, servers }).text(number);
    let head = "mcp: no server named "@ + debug_text(name@);
    assert(t.subrange(0, head.len() as int) =~= head);
    if servers@.len() > 0 {
        let tail = joined(strs(servers@), ", "@);
        assert(server_hint_text(strs(servers@)) == "\n  configured servers: "@ + tail);
        assert(t.subrange(t.len() - tail.len(), t.len() - tail.len() + tail.len()) =~= tail);
    }
}

/// A key that is missing is asked for by the variable that would hold it and the entry that would.
pub proof fn missing_keys_are_asked_for(env: String, provider: String, number: Seq<char>)
    ensures
        ({
            let t = (SetupError::ApiKeyRequired { env, provider }).text(number);
            &&& begins(t, "API key is required: set "@ + env@)
            &&& occurs(t, "providers."@ + provider@ + ".key"@)
        }),
{
    let t = (SetupError::ApiKeyRequired { env, provider }).text(number);
    let head = "API key is required: set "@ + env@;
    assert(t.subrange(0, head.len() as int) =~= head);
    reveal_strlit(" or providers.");
    reveal_strlit("providers.");
    reveal_strlit(".key in your config");
    reveal_strlit(".key");
    let mid = "providers."@ + provider@ + ".key"@;
    let a = head.len() as int + 4;
    assert(t.subrange(a, a + mid.len()) =~= mid);
    assert(crate::text::occurs_at(t, mid, a));
}

/// A run without a model says which agent has none.
pub proof fn missing_models_are_asked_for(agent: String)
    ensures
        occurs(ArgsError::ModelRequired { agent }.text(), "agents."@ + agent@ + ".model"@),
{
    let t = (ArgsError::ModelRequired { agent }).text();
    reveal_strlit("no model chosen: set agents.");
    reveal_strlit("agents.");
    reveal_strlit(".model or pass -M");
    reveal_strlit(".model");
    let mid = "agents."@ + agent@ + ".model"@;
    assert(t.subrange(21, 21 + mid.len() as int) =~= mid);
    assert(crate::text::occurs_at(t, mid, 21));
}

/// A refused argument is shown as it was given.
pub proof fn refused_arguments_are_shown(v: String)
    ensures
        ends(ArgsError::McpClientSecretEnv(v).text(), debug_text(v@)),
        ends(ArgsError::McpName(v).text(), debug_text(v@)),
        ends(ArgsError::McpUrlScheme(v).text(), debug_text(v@)),
        ends(ArgsError::McpBadHeader(v).text(), debug_text(v@)),
        ends(ArgsError::McpBadEnv(v).text(), debug_text(v@)),
        ends(ArgsError::McpProjectSecret(v).text(), v@),
        ends(ArgsError::Stdin(v).text(), v@),
        begins(ArgsError::ListTakesNoName(v).text(), "iota list "@ + v@),
{
    let d = debug_text(v@);
    let t1 = ArgsError::McpClientSecretEnv(v).text();
    assert(t1.subrange(t1.len() - d.len(), t1.len() - d.len() + d.len()) =~= d);
    let t2 = ArgsError::McpName(v).text();
    assert(t2.subrange(t2.len() - d.len(), t2.len() - d.len() + d.len()) =~= d);
    let t3 = ArgsError::McpUrlScheme(v).text();
    assert(t3.subrange(t3.len() - d.len(), t3.len() - d.len() + d.len()) =~= d);
    let t4 = ArgsError::McpBadHeader(v).text();
    assert(t4.subrange(t4.len() - d.len(), t4.len() - d.len() + d.len()) =~= d);
    let t5 = ArgsError::McpBadEnv(v).text();
    assert(t5.subrange(t5.len() - d.len(), t5.len() - d.len() + d.len()) =~= d);
    let t6 = ArgsError::McpProjectSecret(v).text();
    assert(t6.subrange(t6.len() - v@.len(), t6.len() - v@.len() + v@.len()) =~= v@);
    let t7 = ArgsError::Stdin(v).text();
    assert(t7.subrange(t7.len() - v@.len(), t7.len() - v@.len() + v@.len()) =~= v@);
    let t8 = ArgsError::ListTakesNoName(v).text();
    let head = "iota list "@ + v@;
    assert(t8.subrange(0, head.len() as int) =~= head);
}

/// What another part said went wrong is handed on as it was said.
pub proof fn outside_errors_are_handed_on(e: String, number: Seq<char>)
    ensures
        SetupError::Session(e).text(number) == e@,
        SetupError::UnknownType(e).text(number) == e@,
        SetupError::Provider(e).text(number) == e@,
        ends(SetupError::Cwd(e).text(number), e@),
        ends(SetupError::ListSessions(e).text(number), e@),
        ends(SetupError::CreateSession(e).text(number), e@),
        begins(SetupError::ConfigExists(e).text(number), e@),
        RunError::Ui(e).text() == e@,
        RunError::Join(e).text() == e@,
        RunError::Io(e).text() == e@,
        RunError::Chat(ChatError::Provider(e)).text() == e@,
        RunError::Chat(ChatError::Io(e)).text() == e@,
{
    let t1 = SetupError::Cwd(e).text(number);
    assert(t1.subrange(t1.len() - e@.len(), t1.len() - e@.len() + e@.len()) =~= e@);
    let t2 = SetupError::ListSessions(e).text(number);
    assert(t2.subrange(t2.len() - e@.len(), t2.len() - e@.len() + e@.len()) =~= e@);
    let t3 = SetupError::CreateSession(e).text(number);
    assert(t3.subrange(t3.len() - e@.len(), t3.len() - e@.len() + e@.len()) =~= e@);
    let t4 = SetupError::ConfigExists(e).text(number);
    assert(t4.subrange(0, e@.len() as int) =~= e@);
}

/// A server is named in every error of signing in or out, with what went wrong; one that was added tells how to
/// try again.
pub proof fn sign_in_errors_name_the_server(name: String, source: String)
    ensures
        (RunError::McpLogin { name, source }).text() == "mcp login "@ + name@ + ": "@ + source@,
        (RunError::McpLogout { name, source }).text() == "mcp logout "@ + name@ + ": "@ + source@,
        begins(
            (RunError::McpAddLogin { name, source }).text(),
            "mcp login "@ + name@ + ": "@ + source@,
        ),
        ends(RunError::McpAddLogin { name, source }.text(), "iota mcp login "@ + name@),
{
    let t = (RunError::McpAddLogin { name, source }).text();
    let head = "mcp login "@ + name@ + ": "@ + source@;
    assert(t.subrange(0, head.len() as int) =~= head);
    reveal_strlit("\n  Retry with: iota mcp login ");
    reveal_strlit("iota mcp login ");
    let tail = "iota mcp login "@ + name@;
    assert(t.subrange(t.len() - tail.len(), t.len() - tail.len() + tail.len()) =~= tail);
}

/// A server that is there already, or is not where it was looked for, is named with the file.
pub proof fn scope_errors_name_server_and_file(
    name: String,
    file: String,
    files: Vec<String>,
    number: Seq<char>,
)
    ensures
        begins(
            (SetupError::McpExists { name, file }).text(number),
            "mcp: a server named "@ + debug_text(name@) + " already exists in "@ + file@,
        ),
        (SetupError::McpNotInScope { name, file }).text(number) == "mcp: no server named "@
            + debug_text(name@) + " in "@ + file@,
        begins(SetupError::McpAmbiguous { name, files }.text(number), "mcp: "@ + debug_text(name@)),
        ends(
            (SetupError::McpAmbiguous { name, files }).text(number),
            joined(strs(files@), "\n  "@),
        ),
{
    let t = (SetupError::McpExists { name, file }).text(number);
    let head = "mcp: a server named "@ + debug_text(name@) + " already exists in "@ + file@;
    assert(t.subrange(0, head.len() as int) =~= head);
    let u = (SetupError::McpAmbiguous { name, files }).text(number);
    let h = "mcp: "@ + debug_text(name@);
    assert(u.subrange(0, h.len() as int) =~= h);
    let tail = joined(strs(files@), "\n  "@);
    assert(u.subrange(u.len() - tail.len(), u.len() - tail.len() + tail.len()) =~= tail);
}

/// A loop that ran out of turns says how many it had, and whether they were its own or the whole run's.
pub proof fn spent_turns_are_counted(turns: u32)
    ensures
        occurs(ChatError::LocalCap { turns }.text(), "("@ + decimal_of(turns as nat) + " turns"@),
        occurs(ChatError::SharedCap { turns }.text(), "("@ + decimal_of(turns as nat) + " turns"@),
        ends(ChatError::SharedCap { turns }.text(), " turns, the whole run's budget)"@),
        ends(ChatError::LocalCap { turns }.text(), " turns)"@),
{
    let lead = "tool loop reached the --max-turns limit without a final response ("@;
    let n = decimal_of(turns as nat);
    reveal_strlit("tool loop reached the --max-turns limit without a final response (");
    reveal_strlit("(");
    reveal_strlit(" turns");
    reveal_strlit(" turns)");
    reveal_strlit(" turns, the whole run's budget)");
    let mid = "("@ + n + " turns"@;
    let a = lead.len() - 1;
    let t = (ChatError::LocalCap { turns }).text();
    assert(t.subrange(a, a + mid.len()) =~= mid);
    assert(crate::text::occurs_at(t, mid, a));
    let e1 = " turns)"@;
    assert(t.subrange(t.len() - e1.len(), t.len() - e1.len() + e1.len()) =~= e1);
    let u = (ChatError::SharedCap { turns }).text();
    assert(u.subrange(a, a + mid.len()) =~= mid);
    assert(crate::text::occurs_at(u, mid, a));
    let e2 = " turns, the whole run's budget)"@;
    assert(u.subrange(u.len() - e2.len(), u.len() - e2.len() + e2.len()) =~= e2);
}

// ---------------------------------------------------------------- formats, variables and names

/// A format is read by the name it is written under, whatever white space is around it; nothing at all is text.
pub proof fn formats_are_read_by_name(f: OutputFormat, s: Seq<char>)
    ensures
        trimmed(s) == format_name(f) ==> format_named(s) == Some(f),
        trimmed(s).len() == 0 ==> format_named(s) == Some(OutputFormat::Text),
        format_named(s) matches Some(g) ==> trimmed(s).len() == 0 || trimmed(s) == format_name(g),
        format_name(OutputFormat::Text) == "text"@ && format_name(OutputFormat::Json) == "json"@,
{
    reveal_strlit("text");
    reveal_strlit("json");
    assert("text"@[0] == 't' && "json"@[0] == 'j');
}

/// Of two values given for a variable the later counts; a variable that is set to nothing is not set.
pub proof fn the_later_value_counts(pairs: Seq<(&str, &str)>, name: &str, value: &str, env: EnvView)
    requires
        env.vars == vars_of(pairs.push((name, value))),
    ensures
        value@.len() > 0 ==> var_of(env, name@) == Some(value@),
        value@.len() == 0 ==> var_of(env, name@) is None,
        forall|other: Seq<char>|
            other != name@ ==> (#[trigger] env.vars.contains_key(other) <==> vars_of(
                pairs,
            ).contains_key(other)),
{
    assert(pairs.push((name, value)).drop_last() =~= pairs);
}

/// A file is written beside its own name first: under a name that is hidden, that begins with its own, and that
/// ends as a temporary one.
pub proof fn temporary_names_are_told_apart(name: Seq<char>, pid: nat, nonce: nat)
    ensures
        begins(temp_text(name, pid, nonce), "."@ + name + "."@ + decimal_of(pid) + "."@),
        ends(temp_text(name, pid, nonce), hex_of(nonce, 8) + ".tmp"@),
        hex_of(nonce, 8).len() == 8,
{
    let t = temp_text(name, pid, nonce);
    let head = "."@ + name + "."@ + decimal_of(pid) + "."@;
    let tail = hex_of(nonce, 8) + ".tmp"@;
    assert(t =~= head + tail);
    assert(t.subrange(0, head.len() as int) =~= head);
    assert(t.subrange(t.len() - tail.len(), t.len() - tail.len() + tail.len()) =~= tail);
    hex_is_as_long(nonce, 8);
}

proof fn hex_is_as_long(n: nat, k: nat)
    ensures
        hex_of(n, k).len() == k,
    decreases k,
{
    if k > 0 {
        hex_is_as_long(n / 16, (k - 1) as nat);
    }
}

} // verus!
