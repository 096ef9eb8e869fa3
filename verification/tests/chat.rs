//! The run loop: budgets, reports, batches, images, approvals and delegations.

use iota::chat::batch::{parallel_run, plan_steps};
use iota::chat::delegator::{
    child_request, failed_before_start, settle_child, AgentInfo, ApprovalRequest, ChatDelegator, Child,
    ChildGate, DelegateOutcome, GateAction,
};
use iota::chat::images::{
    gather_saves, image_ext, image_name, last_generated_images, last_user_message, save_image,
    save_images_for_turn, HOME_NOT_DEFINED,
};
use iota::chat::once::{once_output, settle, text_output};
use iota::chat::report::{delegated_report, tool_names, DelegationLedger, RunRecorder, TokenUsage};
use iota::chat::execute::{Execution, LoopAction, LoopEvent};
use iota::chat::run::{
    close_run, gate_call, open_run, overlay_place, refusal_text, route_run, unary_outcome, Approver, QuietHost,
    RoundEnd, RoundResult, Route, RunOutcome, RunRequest, ToolLoop,
};
use iota::chat::turns::{
    take_turn, turn_cap, turn_limit, Artifact, ArtifactKind, ArtifactSlot, TurnBudget,
};
use iota::headless::error::ChatError;
use iota::headless::{parse_output_format, AgentOptions, OutputFormat};
use iota::map::StrMap;
use iota::message::{Attachment, Message, Role, ToolCall, Usage};
use iota::provider::ProviderKind;

fn call(n: &str) -> ToolCall {
    ToolCall { id: format!("id-{n}"), name: n.to_owned(), arguments: "{}".to_owned() }
}

#[test]
fn ext_table() {
    assert_eq!(image_ext("image/png"), "png");
    assert_eq!(image_ext("image/jpeg"), "jpg");
    assert_eq!(image_ext("image/webp"), "webp");
    assert_eq!(image_ext("image/gif"), "gif");
    assert_eq!(image_ext("image/jpg"), "bin");
    assert_eq!(image_ext(""), "bin");
}

#[test]
fn recorder_counts_usage_less_rounds() {
    let mut rec = RunRecorder::start();
    rec.observe(None, vec!["a".to_owned(), "a".to_owned()]);
    rec.observe(Some(Usage { input: 5, output: 1, total: 6, ..Usage::default() }), vec![]);
    assert_eq!(rec.round_count(), 2);
    assert_eq!(rec.rounds()[0].round, 1);
    assert_eq!(rec.rounds()[0].tools, ["a", "a"]);
    assert_eq!(rec.rounds()[0].usage, TokenUsage::default());
    assert_eq!(rec.rounds()[1].round, 2);
    assert_eq!(rec.rounds()[1].usage.total_tokens, 6);
    assert_eq!(rec.usage().input, 5);
    let rep = rec.report(
        ProviderKind::Anthropic,
        "m",
        "r",
        vec!["/p".to_owned()],
        vec![],
        None,
        Some("bad".to_owned()),
        12,
    );
    assert_eq!(rep.kind, "result");
    assert_eq!(rep.provider, "anthropic");
    assert_eq!(rep.model, "m");
    assert_eq!(rep.error, "bad");
    assert_eq!(rep.rounds, 2);
    assert_eq!(rep.images, ["/p"]);
    assert!(rep.delegated.is_none());
}

#[test]
fn tool_names_keep_order_and_repeats() {
    assert_eq!(tool_names(&vec![call("b"), call("a"), call("b")]), ["b", "a", "b"]);
    assert!(tool_names(&vec![]).is_empty());
    assert!(delegated_report(&DelegationLedger::default()).is_none());
}

/// The total of a record is the sum of its rounds.
#[test]
fn the_total_adds_up() {
    let mut rec = RunRecorder::start();
    for n in 1..=4u64 {
        let u = Usage { input: n, output: 10 * n, cache_read: 1, cache_write: 2, total: 100 };
        assert!(rec.can_observe(Some(u)));
        rec.observe(Some(u), vec![]);
    }
    let u = rec.usage();
    assert_eq!((u.input, u.output, u.cache_read, u.cache_write, u.total), (10, 100, 4, 8, 400));
    assert!(!rec.can_observe(Some(Usage { total: u64::MAX, ..Usage::default() })));
}

#[test]
fn the_ledger_adds_up() {
    let mut ledger = DelegationLedger::default();
    ledger.add(2, Usage { input: 3, ..Usage::default() });
    ledger.add(1, Usage { input: 4, ..Usage::default() });
    let d = delegated_report(&ledger).expect("something was delegated");
    assert_eq!(d.rounds, 3);
    assert_eq!(d.usage.input_tokens, 7);
    assert!(!ledger.can_add(u32::MAX, Usage::default()));
}

#[test]
fn refusal_names_the_wire_name() {
    let tc = ToolCall { name: "mcp__srv__edit".to_owned(), ..call("") };
    let (ok, why) = QuietHost::new().ask_approval(&tc, "ignored");
    assert!(!ok);
    assert_eq!(why, refusal_text("mcp__srv__edit"));
    assert!(why.starts_with("mcp__srv__edit was not executed: it requires interactive approval, "));
    assert!(why.ends_with("(tools.code.auto_write / tools.shell.auto_run) to permit it here."));
}

#[test]
fn test_turn_budget_unlimited_without_a_flag() {
    // A cap nobody chose is not invented: no flag means no budget.
    for n in [0, -1, i64::MIN] {
        assert!(turn_cap(n).is_none(), "turn_cap({n}) must be None");
    }
    // Beyond u32 is unlimited too.
    assert!(turn_cap(i64::from(u32::MAX) + 1).is_none());
    let mut nil: Option<TurnBudget> = None;
    for _ in 0..1000 {
        assert!(take_turn(&mut nil), "a nil budget must grant every round");
    }
    assert_eq!(turn_limit(&nil), 0);
}

#[test]
fn test_turn_budget_spends_exactly_its_cap() {
    let mut b = turn_cap(3).map(TurnBudget::new).expect("a positive cap yields a budget");
    for i in 1..=3 {
        assert!(b.take(), "round {i} refused inside the cap");
    }
    assert!(!b.take(), "the budget granted a fourth round");
    assert_eq!(b.cap(), 3, "cap() must be the number the user wrote");
    let mut opt = turn_cap(1).map(TurnBudget::new);
    assert_eq!(turn_limit(&opt), 1);
    assert!(take_turn(&mut opt));
    assert!(!take_turn(&mut opt));
}

#[test]
fn test_artifact_slot_last_post_wins() {
    let mut slot = ArtifactSlot::default();
    assert!(slot.take().is_none(), "a fresh slot must be empty");
    slot.post(Artifact {
        kind: ArtifactKind::Diff,
        title: "a.txt".to_owned(),
        lines: vec!["-x".to_owned()],
    });
    slot.post(Artifact {
        kind: ArtifactKind::Note,
        title: "note".to_owned(),
        lines: vec!["2 round(s)".to_owned()],
    });
    // Last post wins.
    let got = slot.take().expect("the last post");
    assert_eq!(got.kind, ArtifactKind::Note);
    assert_eq!(got.title, "note");
    // take() drains: a second take sees an empty slot.
    assert!(slot.take().is_none());
    // Another holder of the slot posts into the same slot.
    let other = &mut slot;
    other.post(Artifact { kind: ArtifactKind::Diff, title: "b".to_owned(), lines: Vec::new() });
    assert_eq!(slot.take().expect("shared").title, "b");
}

#[test]
fn display_texts_match_go() {
    assert_eq!(
        ChatError::LocalCap { turns: 7 }.message(),
        "tool loop reached the --max-turns limit without a final response (7 turns)"
    );
    assert_eq!(
        ChatError::SharedCap { turns: 5 }.message(),
        "tool loop reached the --max-turns limit without a final response (5 turns, the whole run's budget)"
    );
    assert_eq!(ChatError::Interrupted.message(), "interrupted");
}

#[test]
fn output_format_spellings() {
    assert_eq!(OutputFormat::Text.as_str(), "text");
    assert_eq!(OutputFormat::Json.as_str(), "json");
    assert_eq!(OutputFormat::default(), OutputFormat::Text);
    // The error quotes the original, untrimmed input.
    assert_eq!(
        parse_output_format(" yaml ").err().expect("a bad format").message(),
        "unknown output format \" yaml \" (want text or json)"
    );
    assert!(matches!(parse_output_format(" json "), Ok(OutputFormat::Json)));
    assert!(matches!(parse_output_format(""), Ok(OutputFormat::Text)));
}

fn image(data: &[u8]) -> Attachment {
    Attachment {
        filename: String::new(),
        mime_type: "image/png".to_owned(),
        data: data.to_vec(),
    }
}

#[test]
fn images_are_named_and_reported() {
    assert_eq!(image_name("20260101-000000", 2, "image/jpeg"), "20260101-000000-2.jpg");
    let saved = gather_saves(
        &vec![image(b"a"), image(b"b")],
        &vec![Ok("/i/a.png".to_owned()), Err("disk full".to_owned())],
    );
    assert_eq!(saved.paths, ["/i/a.png"]);
    assert_eq!(saved.attachments.len(), 1);
    assert_eq!(saved.attachments[0].filename, "a.png");
    assert_eq!(saved.failures.len(), 1);
    assert!(saved.failures[0].contains("disk full"), "{}", saved.failures[0]);
}

#[test]
fn a_turn_saves_its_images_one_after_the_other() {
    let images = vec![image(b"a"), image(b"b"), image(b"c")];
    let write = |p: &String, a: &Attachment| {
        if a.data == b"b" {
            Err("disk full".to_owned())
        } else {
            Ok(p.clone())
        }
    };
    let saved = save_images_for_turn(&images, &Some("/i".to_owned()), &write);
    assert_eq!(saved.paths.len(), 2);
    assert!(saved.paths[0].ends_with("-0.png"), "{}", saved.paths[0]);
    assert!(saved.paths[1].ends_with("-2.png"), "{}", saved.paths[1]);
    assert_eq!(format!("/i/{}", saved.attachments[1].filename), saved.paths[1]);
    assert_eq!(saved.attachments[1].data, b"c");
    assert_eq!(saved.failures, ["saving image failed: disk full"]);
    let unused = |_: &String, _: &Attachment| -> Result<String, String> { panic!("nothing is written") };
    let none = save_images_for_turn(&images, &None, &unused);
    assert!(none.paths.is_empty() && none.attachments.is_empty());
    assert_eq!(none.failures, vec!["saving image failed: $HOME is not defined"; 3]);
}

#[test]
fn an_image_is_saved_under_a_stamp_of_its_own() {
    let att = image(b"x");
    let no_dir = save_image(&att, &None, 0, |_: &String, _: &Attachment| panic!("nothing is written"));
    assert_eq!(no_dir, Err(HOME_NOT_DEFINED.to_owned()));
    let path = save_image(&att, &Some("/i".to_owned()), 3, |p: &String, a: &Attachment| {
        assert_eq!(a.data, b"x");
        Ok(p.clone())
    })
    .expect("saved");
    assert!(path.starts_with("/i/"), "{path}");
    assert!(path.ends_with("-3.png"), "{path}");
    let stamp = &path["/i/".len()..path.len() - "-3.png".len()];
    assert_eq!(stamp.len(), "20260101-000000".len(), "{stamp}");
    assert_eq!(stamp.as_bytes()[8], b'-');
    assert!(stamp.bytes().enumerate().all(|(i, b)| i == 8 || b.is_ascii_digit()), "{stamp}");
}

#[test]
fn the_newest_images_are_found() {
    let mut reply = Message::user("not this");
    reply.attachments.push(image(b"mine"));
    let history = vec![Message::user("draw"), reply];
    assert_eq!(last_user_message(&history).expect("user").content, "not this");
    assert!(last_generated_images(&history).is_empty());
}

/// Neighbouring calls that may run in parallel form one step; every call is in exactly one.
#[test]
fn steps_group_parallel_neighbours() {
    let calls = vec![call("a"), call("b"), call("c"), call("d")];
    let parallel = vec![true, true, false, true];
    assert_eq!(parallel_run(&calls, &parallel, 0), 2);
    assert_eq!(parallel_run(&calls, &parallel, 2), 2);
    assert_eq!(plan_steps(&calls, &parallel), vec![(0, 2), (2, 3), (3, 4)]);
    assert_eq!(plan_steps(&Vec::new(), &Vec::new()), vec![]);
}

fn round(content: &str, calls: Vec<ToolCall>) -> RoundResult {
    RoundResult {
        content: content.to_owned(),
        reasoning: String::new(),
        tool_calls: calls,
        raw_content: None,
        images: Vec::new(),
        usage: Some(Usage { total: 1, ..Usage::default() }),
    }
}

/// A loop of two rounds: the calls and their results enter the conversation, then the reply ends it.
#[test]
fn a_loop_runs_its_calls_and_ends_with_the_reply() {
    let req = RunRequest {
        message: "do it".to_owned(),
        system: "sys".to_owned(),
        agent: AgentOptions::default(),
        history: Vec::new(),
    };
    let (history, watermark) = open_run(&req);
    assert_eq!(history.len(), 2);
    assert_eq!(history[0].role(), Role::System);
    let mut l = ToolLoop {
        history,
        rounds: 0,
        max_turns: Some(2),
        budget: turn_cap(5).map(TurnBudget::new),
        rec: RunRecorder::start(),
    };
    assert!(matches!(l.begin_round(false, vec!["job done".to_owned()]), Ok(false)));
    assert_eq!(l.history.len(), 3);
    match l.take_round(round("", vec![call("a")])) {
        RoundEnd::Calls(calls) => {
            assert_eq!(calls.len(), 1);
            l.take_results(&calls, &vec![("ok".to_owned(), false)]);
        },
        RoundEnd::Reply(_) => panic!("the model asked for a call"),
    }
    assert_eq!(l.history.len(), 5);
    assert_eq!(l.history[4].content, "ok");
    assert_eq!(l.history[4].role(), Role::Tool);
    assert!(matches!(l.begin_round(false, vec![]), Ok(true)));
    let outcome = match l.take_round(round("done", vec![])) {
        RoundEnd::Reply(o) => l.take_reply(o, None).expect("the loop ends"),
        RoundEnd::Calls(_) => panic!("no calls were asked for"),
    };
    let saved = gather_saves(&Vec::new(), &Vec::new());
    let run = close_run(l.history, watermark, outcome, saved);
    assert_eq!(run.reply, "done");
    assert_eq!(run.delta.last().expect("reply").content, "done");
    assert_eq!(l.rec.round_count(), 2);
    assert_eq!(l.rec.usage().total, 2);
}

/// The whole loop, action by action: a batch runs beside itself, a gated call is refused in place, and each round
/// begins with a poll.
#[test]
fn the_loop_is_driven_action_by_action() {
    let state = ToolLoop {
        history: vec![Message::user("do it")],
        rounds: 0,
        max_turns: None,
        budget: turn_cap(5).map(TurnBudget::new),
        rec: RunRecorder::start(),
    };
    let mut rounds = vec![
        round("done", vec![]),
        round("thinking", vec![call("a"), call("b"), call("edit"), call("c")]),
    ];
    let mut log = Vec::new();
    let (mut exec, mut action) = Execution::begin(state);
    let reply = loop {
        let event = match action {
            LoopAction::Poll => {
                log.push("poll".to_owned());
                LoopEvent::Polled { cancelled: false, notices: Vec::new() }
            },
            LoopAction::Refresh => {
                log.push("refresh".to_owned());
                LoopEvent::Refreshed
            },
            LoopAction::TakePending => LoopEvent::Pending(Vec::new()),
            LoopAction::Request => {
                log.push(format!("request {}", exec.state().history.len()));
                LoopEvent::Answered(Ok(rounds.pop().expect("two rounds")))
            },
            LoopAction::WaitJob => LoopEvent::Job(None),
            LoopAction::SplitCalls => LoopEvent::Split(
                exec.calls().expect("calls").iter().map(|c| c.name != "edit").collect(),
            ),
            LoopAction::Batch { from, to } => {
                log.push(format!("batch {from}..{to}"));
                LoopEvent::Ran((from..to).map(|i| (format!("r{i}"), false)).collect())
            },
            LoopAction::Gate { at } => {
                log.push(format!("gate {at}"));
                let asks = exec.calls().expect("calls")[at].name == "edit";
                (exec, action) = exec.let_through(&QuietHost::new(), asks, "");
                continue;
            },
            LoopAction::Run { at } => {
                log.push(format!("run {at}"));
                LoopEvent::Ran(vec![(format!("r{at}"), false)])
            },
            LoopAction::Finished(r) => break r,
        };
        (exec, action) = exec.execute_with_tools(event);
    };
    assert_eq!(reply.ok().expect("a reply").content, "done");
    assert_eq!(
        log,
        [
            "poll", "request 1", "batch 0..2", "gate 2", "gate 3", "run 3", "poll", "refresh",
            "request 6",
        ]
    );
    let left = exec.into_state();
    let results: Vec<&str> = left.history[2..].iter().map(|m| m.content.as_str()).collect();
    assert_eq!(results, ["r0", "r1", refusal_text("edit").as_str(), "r3"]);
    assert_eq!(left.rounds, 1);
    assert_eq!(left.rec.round_count(), 2);
}

#[test]
fn a_failed_request_ends_the_loop() {
    let state = ToolLoop {
        history: Vec::new(),
        rounds: 0,
        max_turns: None,
        budget: None,
        rec: RunRecorder::start(),
    };
    let (exec, _) = Execution::begin(state);
    let (exec, _) =
        exec.execute_with_tools(LoopEvent::Polled { cancelled: false, notices: Vec::new() });
    let (exec, _) = exec.execute_with_tools(LoopEvent::Pending(Vec::new()));
    let (_, action) = exec.execute_with_tools(LoopEvent::Answered(Err("boom".to_owned())));
    assert!(matches!(
        action,
        LoopAction::Finished(Err(ChatError::Provider(e))) if e == "boom"
    ));
}

#[test]
fn a_run_is_routed_by_its_tools() {
    assert!(matches!(route_run(true, true, 3), Err(ChatError::Interrupted)));
    assert!(matches!(route_run(false, true, 3), Ok(Route::Rounds)));
    assert!(matches!(route_run(false, true, 0), Ok(Route::Unary)));
    assert!(matches!(route_run(false, false, 3), Ok(Route::Unary)));
    let mut agent = AgentOptions::default();
    assert!(overlay_place(&agent).is_none());
    agent.enabled = true;
    agent.root = "/p".to_owned();
    assert_eq!(overlay_place(&agent), Some(("/p".to_owned(), "/p".to_owned())));
    agent.cwd = Some("/p/a".to_owned());
    assert_eq!(overlay_place(&agent), Some(("/p".to_owned(), "/p/a".to_owned())));
    let child = Child { system: "sys".to_owned(), agent, max_turns: Some(2) };
    let req = child_request("task".to_owned(), child);
    assert_eq!((req.message.as_str(), req.system.as_str()), ("task", "sys"));
    assert!(req.history.is_empty());
}

/// The loop's own cap, then the budget of the run, then cancellation before both.
#[test]
fn the_caps_are_held_in_order() {
    let mut l = ToolLoop {
        history: Vec::new(),
        rounds: 0,
        max_turns: Some(1),
        budget: turn_cap(1).map(TurnBudget::new),
        rec: RunRecorder::start(),
    };
    assert!(matches!(l.begin_round(true, vec![]), Err(ChatError::Interrupted)));
    assert!(l.begin_round(false, vec![]).is_ok());
    l.take_results(&Vec::new(), &Vec::new());
    assert!(matches!(l.begin_round(false, vec![]), Err(ChatError::LocalCap { turns: 1 })));
    l.max_turns = None;
    assert!(matches!(l.begin_round(false, vec![]), Err(ChatError::SharedCap { turns: 1 })));
}

#[test]
fn a_unary_reply_is_an_outcome() {
    let o = unary_outcome("pic".to_owned(), vec![image(b"p")], None);
    assert_eq!(o.content, "pic");
    assert_eq!(o.images.len(), 1);
}

#[test]
fn approvals_gate_calls() {
    let quiet = QuietHost::new();
    assert_eq!(gate_call(&quiet, &call("read"), false, ""), None);
    assert_eq!(gate_call(&quiet, &call("edit"), true, ""), Some(refusal_text("edit")));
    let asked = QuietHost { rec: RunRecorder::start(), approve: Some(InTmp) };
    assert_eq!(gate_call(&asked, &call("read"), false, "/etc/a"), None);
    assert_eq!(gate_call(&asked, &call("edit"), true, "/tmp/a"), None);
    assert_eq!(gate_call(&asked, &call("edit"), true, "/etc/a"), Some("not edit in /etc/a".to_owned()));
    assert_eq!(asked.ask_approval(&call("run"), "/x"), (false, "not run in /x".to_owned()));
}

/// Allows what its detail says is in `/tmp`.
struct InTmp;

impl Approver for InTmp {
    fn answer(&self, call: &ToolCall, detail: &str) -> (bool, String) {
        (detail.starts_with("/tmp/"), format!("not {} in {detail}", call.name))
    }
}

/// A loop runs what its approver lets through, and reads the approver's own words of the rest.
#[test]
fn the_loop_asks_about_each_call() {
    let state = ToolLoop {
        history: vec![Message::user("go")],
        rounds: 0,
        max_turns: None,
        budget: None,
        rec: RunRecorder::start(),
    };
    let host = QuietHost { rec: RunRecorder::start(), approve: Some(InTmp) };
    let mut rounds = vec![round("done", vec![]), round("", vec![call("a"), call("b"), call("c")])];
    let mut ran = Vec::new();
    let (mut exec, mut action) = Execution::begin(state);
    loop {
        let event = match action {
            LoopAction::Poll => LoopEvent::Polled { cancelled: false, notices: Vec::new() },
            LoopAction::Refresh => LoopEvent::Refreshed,
            LoopAction::TakePending => LoopEvent::Pending(Vec::new()),
            LoopAction::Request => LoopEvent::Answered(Ok(rounds.pop().expect("two rounds"))),
            LoopAction::WaitJob => LoopEvent::Job(None),
            LoopAction::SplitCalls => LoopEvent::Split(vec![false; 3]),
            LoopAction::Batch { .. } => panic!("nothing runs beside another call"),
            LoopAction::Gate { at } => {
                let detail = ["/etc/a", "/tmp/b", "/etc/c"][at];
                (exec, action) = exec.let_through(&host, at < 2, detail);
                continue;
            },
            LoopAction::Run { at } => {
                ran.push(at);
                LoopEvent::Ran(vec![(format!("r{at}"), false)])
            },
            LoopAction::Finished(r) => {
                assert!(r.is_ok());
                break;
            },
        };
        (exec, action) = exec.execute_with_tools(event);
    }
    assert_eq!(ran, [1, 2]);
    let left = exec.into_state();
    let results: Vec<&str> = left.history[2..].iter().map(|m| m.content.as_str()).collect();
    assert_eq!(results, ["not a in /etc/a", "r1", "r2"]);
}

/// With the parent's gate installed, a child's state-changing call is put to the one user who exists.
#[test]
fn set_approver_routes_child_calls_to_the_parent_gate() {
    // Denied: the child never executes the call and the refusal is its result.
    let declined = "The user declined this call.";
    let mut asked = Vec::new();
    let (ran, done) = gated_child(|q| {
        asked.push((q.name.clone(), q.detail.clone(), q.agent.clone()));
        (false, declined.to_owned())
    });
    assert!(done.error.is_none(), "a refusal is not a child failure");
    assert_eq!(ran, 0, "a declined call must not run");
    assert_eq!(
        asked,
        vec![("write_file".to_owned(), "path:a.txt".to_owned(), "writer".to_owned())],
        "the parent is told what the call is about and who asked"
    );
    // Approved: the call runs.
    let (ran, done) = gated_child(|_| (true, String::new()));
    assert!(done.error.is_none());
    assert_eq!(done.result.reply, "done");
    assert_eq!(ran, 1);
}

/// A child that calls `write_file` once and then replies; how often the call ran, and what the child gave.
fn gated_child<F: FnMut(&ApprovalRequest) -> (bool, String)>(mut approve: F) -> (u32, DelegateOutcome) {
    let mut ran = 0;
    let mut rounds = 0;
    let state = ToolLoop {
        history: vec![Message::user("task")],
        rounds: 0,
        max_turns: None,
        budget: None,
        rec: RunRecorder::start(),
    };
    let (mut exec, mut action) = Execution::begin(state);
    loop {
        let event = match action {
            LoopAction::Poll => LoopEvent::Polled { cancelled: false, notices: Vec::new() },
            LoopAction::Refresh => LoopEvent::Refreshed,
            LoopAction::TakePending => LoopEvent::Pending(Vec::new()),
            LoopAction::Request => {
                rounds += 1;
                let calls = if rounds == 1 { vec![call("write_file")] } else { Vec::new() };
                LoopEvent::Answered(Ok(round(if rounds == 1 { "" } else { "done" }, calls)))
            },
            LoopAction::WaitJob => LoopEvent::Job(None),
            LoopAction::SplitCalls => LoopEvent::Split(vec![false]),
            LoopAction::Batch { .. } => panic!("one call is no batch"),
            // The parent is asked when the call is about to run, so the own loop of the child asks nobody.
            LoopAction::Gate { .. } => LoopEvent::Gated(None),
            LoopAction::Run { .. } => {
                let (gate, first) = ChildGate::begin("writer", "write_file", "path:a.txt", true, true);
                let last = match first {
                    GateAction::Ask(q) => {
                        let (allowed, why) = approve(&q);
                        gate.answered(allowed, why).1
                    },
                    other => other,
                };
                LoopEvent::Ran(vec![match last {
                    GateAction::Run => {
                        ran += 1;
                        ("written".to_owned(), false)
                    },
                    GateAction::Refuse(why) => (why, true),
                    GateAction::Ask(_) => panic!("the parent is asked once"),
                }])
            },
            LoopAction::Finished(r) => {
                let state = exec.into_state();
                let outcome = r.map(|o| close_run(state.history, 1, o, gather_saves(&Vec::new(), &Vec::new())));
                let mut ledger = DelegationLedger::default();
                return (ran, settle_child(outcome, &state.rec, 5, &mut ledger));
            },
        };
        (exec, action) = exec.execute_with_tools(event);
    }
}

/// Nobody to ask: the call is refused, not executed.
#[test]
fn no_approver_keeps_the_headless_refusal() {
    let quiet = QuietHost::new();
    assert_eq!(
        gate_call(&quiet, &call("write_file"), true, "path:a.txt"),
        Some(refusal_text("write_file"))
    );
    match ChildGate::begin("writer", "write_file", "path:a.txt", true, false).1 {
        GateAction::Refuse(why) => assert_eq!(why, refusal_text("write_file")),
        _ => panic!("nobody to ask: the call is refused"),
    }
    assert!(matches!(ChildGate::begin("writer", "read", "", false, true).1, GateAction::Run));
}

#[test]
fn a_child_is_billed_whether_or_not_it_succeeds() {
    let mut agents: StrMap<AgentInfo> = StrMap::new();
    agents.insert(
        "review".to_owned(),
        AgentInfo { description: "reviews".to_owned(), read_only: true },
    );
    let d = ChatDelegator::new(agents);
    assert_eq!(d.agent_names(), &vec!["review".to_owned()]);
    assert!(d.agent("review").expect("known").read_only);
    assert!(d.let_start("review").is_ok());
    let refused = d.let_start("nobody").err().expect("unknown");
    assert_eq!(refused.error.as_deref(), Some("unknown agent \"nobody\""));
    assert_eq!(refused.result.rounds, 0);

    let mut rec = RunRecorder::start();
    rec.observe(Some(Usage { input: 2, total: 3, ..Usage::default() }), vec![]);
    let mut ledger = DelegationLedger::default();
    let failed = settle_child(Err(ChatError::Interrupted), &rec, 9, &mut ledger);
    assert_eq!(failed.error.as_deref(), Some("interrupted"));
    assert_eq!(failed.result.rounds, 1);
    assert_eq!(failed.result.usage.total, 3);
    assert_eq!(failed.result.duration_ms, 9);
    assert_eq!(ledger.snapshot().expect("billed").0, 1);
    let o = failed_before_start("x".to_owned());
    assert_eq!(o.error.as_deref(), Some("x"));
}

#[test]
fn the_output_is_the_reply_then_the_images() {
    let done = RunOutcome {
        reply: "hello".to_owned(),
        images: vec!["/i/a.png".to_owned()],
        image_errors: vec!["saving image failed: x".to_owned()],
        delta: Vec::new(),
    };
    assert_eq!(
        text_output(&done),
        "hello\n🖼 saved: /i/a.png\nsaving image failed: x\n"
    );
    let settled = settle(Ok(done), false);
    assert!(settled.is_ok());
    assert!(matches!(settle(Err(ChatError::Provider("boom".to_owned())), true), Err(ChatError::Interrupted)));
}

fn finished() -> RunOutcome {
    let history = vec![Message::user("hi")];
    let outcome = unary_outcome("reply".to_owned(), Vec::new(), None);
    close_run(history, 0, outcome, gather_saves(&Vec::new(), &Vec::new()))
}

/// A report is printed whether or not the run succeeded; as text a failed run prints nothing.
#[test]
fn the_output_follows_the_format() {
    let rec = RunRecorder::start();
    let print = |format, result, cancelled, broken: bool| {
        once_output(format, result, cancelled, &rec, ProviderKind::OpenAi, "m", 7, |r| {
            if broken {
                Err("no".to_owned())
            } else {
                Ok(format!("{}|{}|{}", r.kind, r.reply, r.error))
            }
        })
    };
    let boom = || Err(ChatError::Provider("boom".to_owned()));
    let (out, left) = print(OutputFormat::Json, Ok(finished()), true, false);
    assert_eq!(out, "result|reply|\n");
    assert_eq!(left.ok().expect("left").delta.last().expect("reply").content, "reply");
    let (out, left) = print(OutputFormat::Json, boom(), false, false);
    assert_eq!(out, "result||boom\n");
    assert!(matches!(left, Err(ChatError::Provider(_))));
    let (_, left) = print(OutputFormat::Json, boom(), true, false);
    assert!(matches!(left, Err(ChatError::Interrupted)));
    let (out, left) = print(OutputFormat::Json, boom(), false, true);
    assert_eq!(out, "");
    assert!(matches!(left, Err(ChatError::Io(_))));
    let (out, left) = print(OutputFormat::Text, Ok(finished()), false, false);
    assert_eq!(out, "reply\n");
    assert!(left.is_ok());
    let (out, left) = print(OutputFormat::Text, boom(), false, false);
    assert_eq!(out, "");
    assert!(left.is_err());
}

/// The cap is granted exactly, and a refusal is final.
#[test]
fn a_budget_grants_its_cap() {
    let mut b = TurnBudget::new(2);
    let answers: Vec<bool> = (0..5).map(|_| b.take()).collect();
    assert_eq!(answers, [true, true, false, false, false]);
    assert_eq!(b.cap(), 2);
}
