//! The hosts a chat runs inside, and the presenter over them.

use std::cell::RefCell;

use iota::app::env::Env;
use iota::host::ansi::{AnsiHost, ProgressState, UiCall};
use iota::host::background::{
    background_in, dark_hex, detect_background_with, parse_cmux_background, query_argv,
};
use iota::host::cmux::{close_batch, cmux_batch, detect_cmux, CmuxHost};
use iota::host::herdr::{detect_herdr, lifecycle, HerdrHost, Pane, Report, Request, HERDR_QUEUE};
use iota::json::Json;
use iota::host::{
    wants_cmux, AnyHost, Caps, Event, Host, Kind, Presenter, Probe, RecordingHost, State,
};

const STATE_ONLY: Caps = Caps {
    state: true,
    notify: false,
    background: false,
    close: false,
    session: false,
    environment: false,
};
const FULL: Caps = Caps {
    state: true,
    notify: true,
    background: false,
    close: false,
    session: false,
    environment: false,
};

fn host(name: &str, caps: Caps) -> AnyHost {
    AnyHost::Recording(RecordingHost::new(name, caps))
}

fn recording(p: &Presenter<AnyHost>, i: usize) -> &RecordingHost {
    match &p.hosts[i] {
        AnyHost::Recording(h) => h,
        _ => panic!("host {i} does not record"),
    }
}

fn ping(kind: Kind, text: &str) -> Event {
    Event { kind, text: text.to_owned() }
}

/// The terminal is a pure mapping: host semantics in, renderer-facing progress states and text out.
#[test]
fn test_ansi_mapping() {
    let mut a = AnsiHost::new();
    assert_eq!(a.name(), "terminal");
    for s in [State::Busy, State::NeedsInput, State::Error, State::Idle] {
        a.set_state(s);
    }
    a.notify(&ping(Kind::Done, "iota: The fix"));
    let mut seen = Vec::new();
    for c in &a.pending {
        seen.push(match c {
            UiCall::Progress(ProgressState::Busy) => "busy".to_owned(),
            UiCall::Progress(ProgressState::Input) => "input".to_owned(),
            UiCall::Progress(ProgressState::Error) => "error".to_owned(),
            UiCall::Progress(ProgressState::Clear) => "none".to_owned(),
            UiCall::Notify(t) => format!("notify {t}"),
        });
    }
    assert_eq!(seen, ["busy", "input", "error", "none", "notify iota: The fix"]);
    // The terminal neither closes nor knows the background.
    let caps = AnyHost::Terminal(AnsiHost::new()).caps();
    assert!(!caps.close);
    assert!(!caps.background);
    assert!(caps.state && caps.notify);
}

#[test]
fn test_parse_cmux_background() {
    for (name, json, want) in [
        ("light", r##"{"render_grid":{"terminal_background":"#FEFFFF"}}"##, Some(false)),
        ("dark", r##"{"render_grid":{"terminal_background":"#1E1E1E"}}"##, Some(true)),
        ("missing field", r#"{"render_grid":{}}"#, None),
        ("garbage", "not json", None),
        ("named color", r#"{"render_grid":{"terminal_background":"white"}}"#, None),
    ] {
        assert_eq!(parse_cmux_background(json.as_bytes()), want, "{name}");
    }
}

#[test]
fn a_reply_is_read_as_a_tree() {
    let doc = |color: Json| {
        let grid = Json::Object(vec![("terminal_background".to_owned(), color)]);
        Json::Object(vec![("render_grid".to_owned(), grid)])
    };
    assert_eq!(background_in(&doc(Json::Text("#000000".to_owned()))), Some(true));
    assert_eq!(background_in(&doc(Json::Null)), None);
    assert_eq!(background_in(&Json::List(Vec::new())), None);
}

/// The luma is an INTEGER division, so mid grey lands exactly on 128 and reads light.
#[test]
fn test_dark_hex_boundary() {
    assert_eq!(dark_hex("#808080"), Some(false), "mid gray must read light");
    assert_eq!(dark_hex("#000000"), Some(true), "black must read dark");
    assert_eq!(dark_hex("white"), None);
    assert_eq!(dark_hex("#12345"), None);
    assert_eq!(dark_hex("#gggggg"), None);
}

fn surface(sid: &str, path: Option<&str>) -> Probe {
    let env = if sid.is_empty() { Env::default() } else { Env::fixed(&[("CMUX_SURFACE_ID", sid)]) };
    Probe { env, cmux_path: path.map(str::to_owned) }
}

/// The probe sees the looked-up path and the surface id, and its answer wins over the fallback.
#[test]
fn test_detect_background_cmux_probe() {
    let seen: RefCell<Vec<(String, String)>> = RefCell::new(Vec::new());
    let query = |path: &str, sid: &str| {
        seen.borrow_mut().push((path.to_owned(), sid.to_owned()));
        Some(br##"{"render_grid":{"terminal_background":"#FEFFFF"}}"##.to_vec())
    };
    let dark = detect_background_with(&surface("surf-1", Some("/bin/cmux")), &query, || {
        panic!("the fallback must not run once a host answered")
    });
    assert!(!dark, "cmux reported a light background");
    assert_eq!(*seen.borrow(), [("/bin/cmux".to_owned(), "surf-1".to_owned())]);
}

#[test]
fn test_detect_background_falls_through_to_osc() {
    let query = |_: &str, _: &str| -> Option<Vec<u8>> {
        panic!("no probe applies in a bare environment")
    };
    assert!(
        detect_background_with(&surface("", None), &query, || true),
        "with no host probe, the terminal's answer must stand"
    );
    // The variable alone is not enough: the program must be found too.
    assert!(detect_background_with(&surface("surf-1", None), &query, || true));
}

#[test]
fn the_probe_names_its_surface() {
    assert_eq!(
        query_argv("s\"1"),
        ["rpc", "terminal.replay", "{\"terminal_id\":\"s\\\"1\"}"]
    );
}

#[test]
fn a_probe_that_does_not_know_falls_through() {
    let query = |_: &str, _: &str| Some(b"not json".to_vec());
    assert!(detect_background_with(&surface("surf-1", Some("/bin/cmux")), &query, || true));
}

fn lines(batch: &Vec<Vec<String>>) -> String {
    batch.iter().map(|argv| argv.join(" ")).collect::<Vec<_>>().join("\n")
}

/// The sequence per state, icon and colour included.
#[test]
fn test_cmux_batches() {
    for (state, want) in [
        (
            State::Busy,
            "set-status iota Running --icon bolt.fill --color #4C8DFF\nworkspace loading on --id iota",
        ),
        (
            State::NeedsInput,
            "workspace loading off --id iota\nset-status iota Needs input --icon bell.fill",
        ),
        (
            State::Error,
            "workspace loading off --id iota\nset-status iota Failed --icon exclamationmark.triangle.fill --color #FF3B30",
        ),
        (
            State::Idle,
            "workspace loading off --id iota\nset-status iota Idle --icon pause.circle.fill --color #8E8E93",
        ),
    ] {
        assert_eq!(lines(&cmux_batch(state)), want, "state {state:?}");
    }
    assert_eq!(lines(&close_batch()), "workspace loading off --id iota\nclear-status iota");
}

/// The mailbox is last-wins: states posted while the worker is busy collapse to the newest.
#[test]
fn test_cmux_coalescing() {
    let mut h = CmuxHost::new("surface-1".to_owned(), "/usr/bin/true".to_owned());
    h.set_state(State::Busy);
    assert_eq!(h.take().map(|b| lines(&b)), Some(lines(&cmux_batch(State::Busy))));
    h.set_state(State::NeedsInput);
    h.set_state(State::Idle);
    assert_eq!(h.take().map(|b| lines(&b)), Some(lines(&cmux_batch(State::Idle))));
    assert!(h.take().is_none());
    h.close();
    assert_eq!(h.take().map(|b| lines(&b)), Some(lines(&close_batch())));
}

/// Both markers must be present: the variable cmux injects into every pane, and its program.
#[test]
fn test_detect_cmux() {
    let with_var = Env::fixed(&[("CMUX_SURFACE_ID", "surface-1")]);
    let program = || Some("/usr/bin/true".to_owned());
    assert!(detect_cmux(&Env::default(), program()).is_none(), "detected without the variable");
    assert!(detect_cmux(&with_var, None).is_none(), "detected without the program");
    assert_eq!(detect_cmux(&with_var, program()).expect("cmux not detected").name(), "cmux");
}

const HERDR: &[(&str, &str)] = &[
    ("HERDR_ENV", "1"),
    ("HERDR_PANE_ID", "w1:p2"),
    ("HERDR_SOCKET_PATH", "/nonexistent/herdr.sock"),
    ("HERDR_BIN_PATH", "/nonexistent/herdr"),
];

fn facts(kv: &[(&str, &str)]) -> Vec<(String, String)> {
    kv.iter().map(|(k, v)| ((*k).to_owned(), (*v).to_owned())).collect()
}

/// Any of the three variables missing — or the switch set to something else — is no host.
#[test]
fn test_detect_herdr() {
    let without =
        |name: &str| -> Vec<(&str, &str)> { HERDR.iter().copied().filter(|(k, _)| *k != name).collect() };
    for missing in ["HERDR_ENV", "HERDR_PANE_ID", "HERDR_SOCKET_PATH"] {
        assert!(
            detect_herdr(&Env::fixed(&without(missing)), true, 1).is_none(),
            "detected herdr without {missing}"
        );
    }
    let mut off = without("HERDR_ENV");
    off.push(("HERDR_ENV", "0"));
    assert!(detect_herdr(&Env::fixed(&off), true, 1).is_none(), "detected herdr with HERDR_ENV=0");
    let h = detect_herdr(&Env::fixed(HERDR), true, 1).expect("herdr not detected");
    assert_eq!(h.name(), "herdr");
    assert_eq!(h.environment(), facts(&[("host", "herdr"), ("herdr pane", "w1:p2")]));
    let caps = AnyHost::Herdr(h).caps();
    assert!(caps.state && caps.session && caps.environment && caps.close);
    assert!(!caps.notify, "herdr must not take the ping channel");
    assert!(!caps.background, "herdr knows no background");
}

/// The workspace and tab lines appear only when herdr injected them.
#[test]
fn the_environment_names_the_workspace_and_tab_when_present() {
    let mut vars = HERDR.to_vec();
    vars.push(("HERDR_WORKSPACE_ID", "w1"));
    vars.push(("HERDR_TAB_ID", "w1:t3"));
    let h = detect_herdr(&Env::fixed(&vars), true, 1).expect("herdr not detected");
    assert_eq!(
        h.environment(),
        facts(&[
            ("host", "herdr"),
            ("herdr pane", "w1:p2"),
            ("herdr workspace", "w1"),
            ("herdr tab", "w1:t3"),
        ])
    );
}

/// After a failed turn the user may type, which is not a decision the agent waits on.
#[test]
fn test_lifecycle_words() {
    assert_eq!(lifecycle(State::Busy), "working");
    assert_eq!(lifecycle(State::NeedsInput), "blocked");
    assert_eq!(lifecycle(State::Idle), "idle");
    assert_eq!(lifecycle(State::Error), "idle");
}

/// The wire shapes: the JSON line the socket reads, and the arguments the program takes.
#[test]
fn test_request_shapes() {
    let req = |report| Request { pane: "w1:p2".to_owned(), seq: 41, report };
    let parsed = |r: &Request| -> serde_json::Value {
        serde_json::from_str(&r.json_line()).expect("one JSON value")
    };
    let whole = |text: &str| -> serde_json::Value {
        serde_json::from_str(text).expect("the expected value")
    };

    let state = req(Report::State("blocked"));
    assert_eq!(
        parsed(&state),
        whole(
            r#"{"id":"iota:41","method":"pane.report_agent","params":{"pane_id":"w1:p2","source":"iota","agent":"iota","seq":41,"state":"blocked"}}"#
        )
    );
    assert_eq!(
        state.argv().join(" "),
        "pane report-agent w1:p2 --source iota --agent iota --seq 41 --state blocked"
    );
    assert!(!state.json_line().contains('\n'), "one line, no newline inside");
    assert!(!state.json_line().contains("message"));

    let session = req(Report::Session {
        id: "s-1".to_owned(),
        path: "/tmp/sessions/s-1".to_owned(),
    });
    assert_eq!(
        parsed(&session),
        whole(
            r#"{"id":"iota:41","method":"pane.report_agent_session","params":{"pane_id":"w1:p2","source":"iota","agent":"iota","seq":41,"agent_session_id":"s-1","agent_session_path":"/tmp/sessions/s-1"}}"#
        )
    );
    assert_eq!(
        session.argv().join(" "),
        "pane report-agent-session w1:p2 --source iota --agent iota --seq 41 --agent-session-id s-1 --agent-session-path /tmp/sessions/s-1"
    );

    let release = req(Report::Release);
    assert_eq!(
        parsed(&release),
        whole(
            r#"{"id":"iota:41","method":"pane.release_agent","params":{"pane_id":"w1:p2","source":"iota","agent":"iota","seq":41}}"#
        )
    );
    assert_eq!(
        release.argv().join(" "),
        "pane release-agent w1:p2 --source iota --agent iota --seq 41"
    );
}

/// The calls become requests in call order with rising numbers, and closing ends the sequence with the release.
#[test]
fn test_host_sequence() {
    let pane = Pane { id: "w1:p2".to_owned(), workspace: None, tab: None };
    let mut h = HerdrHost::new(pane, 7);
    h.set_state(State::Busy);
    h.report_session("s-1", "/tmp/s-1");
    h.set_state(State::Idle);
    h.close();
    h.set_state(State::Busy);
    let mut seen = Vec::new();
    while let Some(r) = h.next() {
        seen.push((r.seq, r.method()));
    }
    assert_eq!(
        seen,
        [
            (7, "pane.report_agent"),
            (8, "pane.report_agent_session"),
            (9, "pane.report_agent"),
            (10, "pane.release_agent"),
        ]
    );
}

/// A queue that nobody empties never grows beyond its bound.
#[test]
fn a_stuck_transport_never_blocks_the_caller() {
    let pane = Pane { id: "p".to_owned(), workspace: None, tab: None };
    let mut h = HerdrHost::new(pane, 1);
    for i in 0..200 {
        h.set_state(if i % 2 == 0 { State::Busy } else { State::Idle });
    }
    let mut n = 0;
    while h.next().is_some() {
        n += 1;
    }
    assert!(n <= HERDR_QUEUE, "{n}");
}

/// Resolution happens PER CAPABILITY, not per host: a host owning state does not steal notifications.
#[test]
fn test_presenter_per_capability_fallback() {
    let mut p = Presenter::with_hosts(vec![host("state-only", STATE_ONLY), host("full", FULL)], true);
    p.set_state(State::Busy);
    p.notify(ping(Kind::Done, "iota: done"));
    assert_eq!(recording(&p, 0).states, vec![State::Busy]);
    assert!(
        recording(&p, 1).states.is_empty(),
        "the fallback got states although a host owns the capability"
    );
    let events = &recording(&p, 1).events;
    assert_eq!(events.len(), 1);
    assert_eq!(events[0].text, "iota: done");
}

/// Repeats are dropped; the initial state is idle, which makes a leading idle a no-op.
#[test]
fn test_presenter_dedups_states() {
    let mut p = Presenter::with_hosts(vec![host("full", FULL)], true);
    p.set_state(State::Idle);
    p.set_state(State::Busy);
    p.set_state(State::Busy);
    p.set_state(State::Idle);
    assert_eq!(recording(&p, 0).states, vec![State::Busy, State::Idle]);
}

/// The switch silences every host; states are unaffected.
#[test]
fn test_presenter_notify_switch() {
    let mut p = Presenter::with_hosts(vec![host("full", FULL)], false);
    p.notify(ping(Kind::Failed, "x"));
    p.set_state(State::Busy);
    assert!(recording(&p, 0).events.is_empty(), "notify off but delivered");
    assert_eq!(recording(&p, 0).states, vec![State::Busy]);
}

/// Teardown unwinds detection order.
#[test]
fn test_presenter_close_reverse_order() {
    let caps = Caps { close: true, ..Caps::default() };
    let mut p = Presenter::with_hosts(vec![host("a", caps), host("b", caps)], true);
    assert_eq!(p.close(), vec!["b", "a"]);
    assert!(recording(&p, 0).closed && recording(&p, 1).closed);
}

/// A bare environment leaves the fallback alone.
#[test]
fn test_new_presenter_detects_bare_env() {
    let none = Probe { env: Env::default(), cmux_path: None };
    let p = Presenter::<AnyHost>::new(&none, true, 1, Some(host("full", FULL)), true);
    assert_eq!(p.host_names(), vec!["full"]);
}

/// A detected host comes AHEAD of the fallback.
#[test]
fn test_new_presenter_detects_cmux() {
    let probe = surface("surface-1", Some("/usr/bin/true"));
    let p = Presenter::<AnyHost>::new(&probe, true, 1, Some(host("full", FULL)), true);
    assert_eq!(p.host_names(), vec!["cmux", "full"]);
}

/// The innermost host is exclusive: a herdr pane inside a cmux window yields herdr and the fallback alone.
#[test]
fn test_new_presenter_keeps_the_innermost_host_only() {
    let mut vars = HERDR.to_vec();
    vars.push(("CMUX_SURFACE_ID", "surface-1"));
    let env = Env::fixed(&vars);
    assert!(!wants_cmux(&env, true), "cmux was looked up although herdr was already detected");
    let both = Probe { env, cmux_path: Some("/usr/bin/true".to_owned()) };
    let p = Presenter::<AnyHost>::new(&both, true, 1, Some(host("full", FULL)), true);
    assert_eq!(p.host_names(), vec!["herdr", "full"]);
    assert_eq!(p.environment(), facts(&[("host", "herdr"), ("herdr pane", "w1:p2")]));
}

/// The first host that KNOWS wins; hosts without the capability, or without an answer, fall through.
#[test]
fn test_presenter_dark_background() {
    let bg = |dark: Option<bool>| {
        let mut h = RecordingHost::new("bg", Caps { background: true, ..Caps::default() });
        h.dark = dark;
        AnyHost::Recording(h)
    };
    let p = Presenter::with_hosts(vec![host("inert", Caps::default()), bg(None), bg(Some(true))], true);
    assert_eq!(p.dark_background(), Some(true));
    let p = Presenter::with_hosts(vec![host("inert", Caps::default())], true);
    assert_eq!(
        p.dark_background(),
        None,
        "an inert-only presenter must not know its background"
    );
}

/// The environment is GATHERED, not served by the first host.
#[test]
fn the_environment_gathers_every_contributing_host_in_order() {
    let contributing = |name: &str, kv: &[(&str, &str)]| {
        let mut h = RecordingHost::new(name, Caps { environment: true, ..Caps::default() });
        h.env = facts(kv);
        AnyHost::Recording(h)
    };
    let p = Presenter::with_hosts(
        vec![
            contributing("first", &[("host", "first"), ("first pane", "p1")]),
            host("inert", Caps::default()),
            contributing("second", &[("host", "second")]),
        ],
        true,
    );
    assert_eq!(
        p.environment(),
        facts(&[("host", "first"), ("first pane", "p1"), ("host", "second")])
    );
    let p = Presenter::with_hosts(vec![host("inert", Caps::default())], true);
    assert!(p.environment().is_empty(), "an inert host contributed");
}

/// The session goes to the FIRST reporter; a host without the capability is skipped, and a presenter with none
/// swallows the call.
#[test]
fn the_session_reaches_the_first_reporter() {
    let caps = Caps { session: true, ..Caps::default() };
    let mut p = Presenter::with_hosts(
        vec![host("inert", Caps::default()), host("a", caps), host("b", caps)],
        true,
    );
    p.set_session("s-1", "/tmp/s-1");
    assert_eq!(recording(&p, 1).sessions, facts(&[("s-1", "/tmp/s-1")]));
    assert!(recording(&p, 2).sessions.is_empty(), "the second host got it too");
    Presenter::<AnyHost>::with_hosts(Vec::new(), true).set_session("s-2", "/tmp/s-2");
}

/// A list with no state reporter at all swallows the call.
#[test]
fn a_presenter_without_a_state_reporter_still_dedups() {
    let mut p = Presenter::<AnyHost>::with_hosts(Vec::new(), true);
    p.set_state(State::Busy);
    p.notify(ping(Kind::Done, "nobody"));
    assert!(p.host_names().is_empty());
}
