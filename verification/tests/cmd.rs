//! The commands: assembly, tuning, the interactive entry, the headless run, and delegation.

use iota::app::env::Env;
use iota::chat::report::RunRecorder;
use iota::cmd::args::{
    Cli, Command, ConfigAction, ConfigCmd, Invocation, ListCmd, ListWhat, Resume, ResumeCmd, RunArgs,
    RunCmd,
};
use iota::cmd::assemble::{
    build_dispatcher, build_mcp_configs, extra_sets, resolve_defer_mode, server_config, DeferredGroup,
    McpMount, ServerConfig,
};
use iota::cmd::config_cmd::{auto_init, run_config, ConfigFacts, STARTER};
use iota::cmd::delegate::{
    build_child_tools, build_delegator, build_delegator_with_factory, child_tools, finish_child,
    prepare_child, read_only_registry, AgentRef, ChildTools, DelegateConfig,
};
use iota::cmd::error::{exit_code, ArgsError, CliError, RunError, SetupError};
use iota::cmd::headless::{HeadlessAction, HeadlessEvent, HeadlessRun};
use iota::cmd::interactive::open::{OpenAction, OpenEvent, Opening, PickReply};
use iota::cmd::interactive::picker::{
    picked_id, picker_spec, project_hint, SessionInfo, PICK_SESSION_HEIGHT, PICK_SESSION_TITLE,
};
use iota::cmd::interactive::title::{TITLE_STACK_POP, TITLE_STACK_PUSH};
use iota::cmd::interactive::wire::{
    announce_resume, resolve_context_window, resolve_params, resume_target, session_plan,
    finish_wiring, title_provider, Live, SessionPlan, WireFacts,
};
use iota::cmd::interactive::wiring::{Bundle, SessionWiring, WireAction, WireContext, WireEvent, Wired};
use iota::cmd::interactive::session::{InteractiveRun, RunAction, RunEvent};
use iota::cmd::interactive::{interactive_start, Closing, ReplError};
use iota::cmd::io::Streams;
use iota::cmd::list::{provider_line, run_list, Widths};
use iota::cmd::resolve::{message_in, resolve_run, Given, RunSettings};
use iota::cmd::run::{
    agent_options, assemble_tools, check_invocation, once_options, output_format, announce_headless,
    resume_headless,
    save_warning, version_line, warn_connections, Connection, Place, ResumedSession,
};
use iota::cmd::table::column_width;
use iota::cmd::tuning::{apply, warn_tools_without_calling, Capabilities, Tuning};
use iota::cmd::window::{number_in, parse_window_size, window_number, WindowSizeError, WindowValue};
use iota::config::agent::AgentConfig;
use iota::config::error::ConfigError;
use iota::config::flat::FlatConfig;
use iota::config::migrate::LegacyProviderEntry;
use iota::config::model::{ModelConfig, ModelEntry, ModelRef};
use iota::config::params::ParamLayers;
use iota::config::provider::ProviderConfig;
use iota::config::server::McpServerConfig;
use iota::config::{check_document, Config, ConfigFile, FileRead, Resolved};
use iota::double::Double;
use iota::headless::error::ChatError;
use iota::headless::{AgentOptions, OutputFormat};
use iota::map::StrMap;
use iota::message::Message;
use iota::provider::{Catalog, DeferMode, Dialect, ProviderKind};
use iota::session::SessionMeta;
use iota::yaml::{read, Yaml};

fn d(x: f64) -> Double {
    Double { bits: x.to_bits() }
}

fn text(s: &str) -> String {
    s.to_owned()
}

fn catalog() -> Catalog {
    Catalog {
        dialects: vec![
            Dialect {
                kind: ProviderKind::OpenAi,
                env_key: text("OPENAI_API_KEY"),
                defer_modes: vec![DeferMode::Normal],
            },
            Dialect {
                kind: ProviderKind::Anthropic,
                env_key: text("ANTHROPIC_API_KEY"),
                defer_modes: vec![DeferMode::Normal, DeferMode::Reference],
            },
        ],
    }
}

// ---------------------------------------------------------------- assembly

fn two_servers() -> FlatConfig {
    let mut cfg = FlatConfig::default();
    cfg.mcp_servers.insert(
        text("zeta"),
        McpServerConfig {
            command: text("zeta-bin"),
            defer: Some(text("  zeta tools  ")),
            ..McpServerConfig::default()
        },
    );
    cfg.mcp_servers.insert(
        text("alpha"),
        McpServerConfig {
            url: text("https://alpha.example/mcp"),
            defer: Some(text("   ")),
            ..McpServerConfig::default()
        },
    );
    cfg
}

/// What the flags `srv-bin --root /tmp` and `https://x/mcp` describe.
fn flags() -> Vec<Option<ServerConfig>> {
    let bin = McpServerConfig {
        command: text("srv-bin"),
        args: vec![text("--root"), text("/tmp")],
        ..McpServerConfig::default()
    };
    let url = McpServerConfig { url: text("https://x/mcp"), ..McpServerConfig::default() };
    vec![Some(server_config("srv-bin", &bin)), Some(server_config("https://x/mcp", &url))]
}

#[test]
fn config_servers_are_sorted_then_flags_in_order() {
    let mut warnings = Vec::new();
    let r = build_mcp_configs(
        &two_servers(),
        &LegacyProviderEntry::default(),
        flags(),
        &mut warnings,
    );
    let (configs, defers) = r.ok().expect("configs");
    let names: Vec<&str> = configs.iter().map(|c| c.name.as_str()).collect();
    assert_eq!(names, ["alpha", "zeta", "srv-bin", "https://x/mcp"]);
    assert_eq!(configs[3].url, "https://x/mcp");
    assert_eq!(configs[2].args, ["--root", "/tmp"]);
    // Only the non-blank `defer:` becomes a group, and its summary is trimmed.
    assert_eq!(defers.len(), 1);
    assert_eq!((defers[0].name.as_str(), defers[0].summary.as_str()), ("zeta", "zeta tools"));
    assert_eq!(
        warnings,
        vec![
            "Warning: mcp server alpha: defer needs a one-line summary of the server's tools (not deferred)"
        ]
    );
}

#[test]
fn mcp_flag_empty_is_feature_independent() {
    let mut warnings = Vec::new();
    let r = build_mcp_configs(
        &FlatConfig::default(),
        &LegacyProviderEntry::default(),
        vec![None],
        &mut warnings,
    );
    assert_eq!(
        r.err().expect("empty flag must fail").message(""),
        "--mcp: empty server specification"
    );
}

#[test]
fn unknown_mcp_server_selection_aborts() {
    let entry = LegacyProviderEntry {
        mcp_servers: Some(vec![text("nope")]),
        ..LegacyProviderEntry::default()
    };
    let r = build_mcp_configs(&two_servers(), &entry, Vec::new(), &mut Vec::new());
    assert_eq!(
        r.err().expect("unknown selection must fail").message(""),
        "mcp_servers: \"nope\" is not defined under the top-level mcp_servers"
    );
}

#[test]
fn defer_mode_without_a_deferred_server_warns_once() {
    let mut warnings = Vec::new();
    let parts = build_dispatcher(
        "reference",
        ProviderKind::Anthropic,
        &catalog(),
        0,
        true,
        &Vec::new(),
        &mut warnings,
    );
    assert!(!parts.builtin);
    assert_eq!(parts.mcp, McpMount::Full);
    assert_eq!(
        warnings,
        vec![
            "defer_mode has no effect without a deferred mcp server (add `defer: \"<summary>\"` to one)"
        ]
    );

    // With no server at all the warning is not raised.
    let mut warnings = Vec::new();
    let parts = build_dispatcher(
        "reference",
        ProviderKind::Anthropic,
        &catalog(),
        3,
        false,
        &Vec::new(),
        &mut warnings,
    );
    assert!(parts.builtin);
    assert_eq!(parts.mcp, McpMount::Absent);
    assert!(warnings.is_empty());
}

/// The capability check sees the RESOLVED kind.
#[test]
fn defer_mode_capability_uses_the_resolved_kind() {
    let groups = || vec![DeferredGroup { name: text("srv"), summary: text("things") }];
    let mut warnings = Vec::new();
    let parts = build_dispatcher(
        "reference",
        ProviderKind::Anthropic,
        &catalog(),
        0,
        true,
        &groups(),
        &mut warnings,
    );
    assert!(warnings.is_empty(), "unexpected warnings: {warnings:?}");
    assert_eq!(parts.mcp, McpMount::Deferred(DeferMode::Reference));

    // A kind that does not support the mode still degrades, naming it.
    let mut warnings = Vec::new();
    let parts = build_dispatcher(
        "reference",
        ProviderKind::OpenAi,
        &catalog(),
        0,
        true,
        &groups(),
        &mut warnings,
    );
    assert_eq!(parts.mcp, McpMount::Deferred(DeferMode::Normal));
    assert_eq!(
        warnings,
        vec!["defer_mode \"reference\" does not apply to provider type openai (using normal)"]
    );
    let mut warnings = Vec::new();
    assert_eq!(
        resolve_defer_mode("odd", ProviderKind::OpenAi, &catalog(), &mut warnings),
        DeferMode::Normal
    );
    assert_eq!(warnings, vec!["unknown defer_mode \"odd\" (using normal)"]);
}

#[test]
fn the_ask_set_needs_someone_to_ask() {
    assert_eq!(extra_sets(true, true, false), ["agent", "ask"]);
    assert_eq!(extra_sets(true, true, true), ["agent"]);
    assert_eq!(extra_sets(false, true, false), ["ask"]);
    assert!(extra_sets(false, false, false).is_empty());
}

// ---------------------------------------------------------------- tuning

const PLAIN: Capabilities = Capabilities {
    image: false,
    image_gen: false,
    tunable: false,
    top_p: false,
    json_edits: false,
    tools: false,
};

fn resolved(model: ModelConfig) -> Resolved {
    Resolved { model, ..Resolved::default() }
}

fn tune(model: ModelConfig, temperature: bool) -> (Result<Tuning, SetupError>, Vec<String>) {
    let mut warnings = Vec::new();
    let r = apply(ProviderKind::Imagen, PLAIN, &resolved(model), temperature, &mut warnings);
    (r, warnings)
}

#[test]
fn config_effort_and_top_p_ranges_are_errors() {
    let bad_effort = ModelConfig { effort: text("turbo"), ..ModelConfig::default() };
    let (r, warnings) = tune(bad_effort, false);
    assert_eq!(
        r.err().expect("effort must be rejected").message(""),
        "config effort \"turbo\": want low|medium|high|xhigh|max"
    );
    assert!(warnings.is_empty(), "the error precedes every warning");

    let bad_top_p = ModelConfig { top_p: Some(d(2.0)), ..ModelConfig::default() };
    let (r, _) = tune(bad_top_p, false);
    assert_eq!(
        r.err().expect("top_p must be rejected").message("2"),
        "config top_p 2: want 0.0-1.0"
    );
}

/// A provider with no tuning capability warns about every knob, in order.
#[test]
fn warnings_follow_the_go_order() {
    let model = ModelConfig {
        image: true,
        effort: text("high"),
        top_p: Some(d(0.5)),
        json_edits: true,
        aspect_ratio: text("1:1"),
        ..ModelConfig::default()
    };
    let (r, warnings) = tune(model, true);
    assert!(r.is_ok());
    assert_eq!(
        warnings,
        vec![
            "Warning: `effort` does not apply to provider type imagen (ignored)",
            "Warning: `top_p` does not apply to provider type imagen (ignored)",
            "Warning: temperature does not apply to provider type imagen (ignored)",
            "Warning: `json_edits` applies only to the images provider type (ignored for imagen)",
            "Warning: aspect_ratio/image_size/negative_prompt apply only to image providers (ignored for type imagen)",
        ]
    );
}

#[test]
fn tools_warning_needs_a_provider_without_tool_calling() {
    let mut agent = AgentConfig::default();
    agent.tools.insert(text("code"), Yaml::Null);

    // A tool-calling provider says nothing.
    let calls = Capabilities { tools: true, ..PLAIN };
    let mut warnings = Vec::new();
    warn_tools_without_calling(ProviderKind::OpenAi, calls, &agent, 0, &mut warnings);
    assert!(warnings.is_empty());

    // One without tool calling warns once, whether the tools came from `tools:` or from MCP.
    let mut warnings = Vec::new();
    warn_tools_without_calling(ProviderKind::Imagen, PLAIN, &agent, 0, &mut warnings);
    assert_eq!(
        warnings,
        vec!["Warning: tools/mcp_servers do not apply to provider type imagen (no tool calling)"]
    );

    let mut warnings = Vec::new();
    warn_tools_without_calling(
        ProviderKind::Imagen,
        PLAIN,
        &AgentConfig::default(),
        1,
        &mut warnings,
    );
    assert_eq!(warnings.len(), 1, "an MCP server alone is enough");

    let mut warnings = Vec::new();
    warn_tools_without_calling(
        ProviderKind::Imagen,
        PLAIN,
        &AgentConfig::default(),
        0,
        &mut warnings,
    );
    assert!(warnings.is_empty(), "nothing configured, nothing to say");
}

#[test]
fn what_a_provider_can_take_lands() {
    let all = Capabilities {
        image: true,
        image_gen: true,
        tunable: true,
        top_p: true,
        json_edits: true,
        tools: true,
    };
    let model = ModelConfig {
        image: true,
        effort: text("high"),
        top_p: Some(d(0.5)),
        json_edits: true,
        aspect_ratio: text("1:1"),
        ..ModelConfig::default()
    };
    let mut warnings = Vec::new();
    let t = apply(ProviderKind::Images, all, &resolved(model), true, &mut warnings)
        .ok()
        .expect("tuned");
    assert!(warnings.is_empty(), "{warnings:?}");
    assert!(t.image_output && t.json_edits);
    assert_eq!(t.top_p, Some(d(0.5)));
    assert_eq!(t.image_gen.expect("params").aspect_ratio.as_deref(), Some("1:1"));
}

// ---------------------------------------------------------------- windows

fn window_value(s: &str) -> Option<WindowValue> {
    let n = window_number(s).ok()?;
    let x: f64 = n.number.parse().ok()?;
    Some(WindowValue { value: d(x), scaled: d(x * n.unit as f64) })
}

#[test]
fn window_sizes_scale() {
    for (s, want) in [
        ("400k", 400_000),
        ("1.5M", 1_500_000),
        (" 2B ", 2_000_000_000),
        ("7", 7),
        ("128K", 128_000),
        ("1.5 k", 1_500),
        ("\t3\u{a0}m", 3_000_000),
    ] {
        assert_eq!(parse_window_size(s, window_value(s)).ok(), Some(want), "{s}");
    }
    let n = number_in(text("2.5m")).ok().expect("a number");
    assert_eq!((n.unit, n.text.as_str()), (1_000_000, "2.5"));
    assert_eq!(parse_window_size("  ", None).err().expect("empty").message(), "empty size");
    assert_eq!(
        parse_window_size("abck", window_value("abck")).err().expect("no number").message(),
        "invalid context window size: \"abc\""
    );
    assert!(parse_window_size("0.1", window_value("0.1")).is_err());
    assert!(parse_window_size("9e30", window_value("9e30")).is_err());
    assert!(parse_window_size("-4k", window_value("-4k")).is_err());
}

/// A number that is not above zero is no number of tokens; one that is and does not fit is out of range.
#[test]
fn a_window_is_above_zero() {
    for (s, shown) in [("0", "0"), ("-0 k", "-0 "), ("-4k", "-4"), ("nan", "nan"), ("- 1", "- 1")] {
        match parse_window_size(s, window_value(s)) {
            Err(WindowSizeError::NotANumber(t)) => assert_eq!(t, shown, "{s}"),
            _ => panic!("{s} is above zero"),
        }
    }
    for s in ["0.1", "9e30", "inf", "1e-320"] {
        let r = parse_window_size(s, window_value(s));
        assert!(matches!(r, Err(WindowSizeError::OutOfRange)), "{s}");
    }
    for x in [1.0, 5e-324, f64::INFINITY] {
        assert!(d(x).above_zero(), "{x}");
    }
    for x in [0.0, -0.0, -1.0, f64::NEG_INFINITY, f64::NAN, -f64::NAN] {
        assert!(!d(x).above_zero(), "{x}");
    }
    let n = number_in(text(" 1.5 k")).ok().expect("a number");
    assert_eq!((n.text.as_str(), n.number.as_str()), (" 1.5 ", "1.5"));
}

// ---------------------------------------------------------------- the starter

/// The starter is a config that is accepted: every key checked, every reference resolved.
#[test]
fn the_starter_config_loads() {
    let doc = check_document(STARTER.as_bytes()).ok().expect("the starter passes the audit");
    let value = |path: &[&str]| {
        let mut y: &Yaml = &doc;
        for p in path {
            y = y.field(p).expect(p);
        }
        y.as_text().expect("a text").clone()
    };
    let mut file = ConfigFile {
        providers: StrMap::new(),
        models: StrMap::new(),
        agents: StrMap::new(),
        mcp_servers: StrMap::new(),
    };
    file.providers.insert(
        text("openai"),
        ProviderConfig {
            kind: value(&["providers", "openai", "type"]),
            ..ProviderConfig::default()
        },
    );
    file.models.insert(
        text("gpt"),
        ModelEntry::Full(Box::new(ModelConfig {
            provider: value(&["models", "gpt", "provider"]),
            id: value(&["models", "gpt", "id"]),
            ..ModelConfig::default()
        })),
    );
    let models = match doc.field("agents").and_then(|a| a.field("default")).and_then(|a| a.field("models")) {
        Some(Yaml::List(v)) => v
            .iter()
            .map(|y| ModelRef::parse(y.as_text().expect("a reference")).ok().expect("parses"))
            .collect(),
        _ => panic!("models is a list"),
    };
    file.agents.insert(text("default"), AgentConfig { models, ..AgentConfig::default() });
    let mut warnings = Vec::new();
    let cfg = Config::load(
        vec![(text("starter"), FileRead::Document(Ok(file)))],
        &Env::default(),
        &catalog(),
        &mut warnings,
    )
    .ok()
    .expect("the starter config loads");
    assert!(warnings.is_empty(), "unexpected warnings: {warnings:?}");
    assert!(cfg.default_agent().is_some(), "it declares agents.default");
    assert_eq!(cfg.providers.len(), 1);
    assert_eq!(cfg.models.len(), 1);
}

fn config_facts(files: Vec<(String, bool)>, exists: bool) -> ConfigFacts {
    ConfigFacts {
        explicit: None,
        home: Some(text("/h")),
        files,
        loaded: Ok(Config::default()),
        warnings: vec![text("Warning: w")],
        target_exists: exists,
    }
}

#[test]
fn the_config_command_answers_three_questions() {
    let cmd = |action| ConfigCmd { action };
    let mut io = Streams::default();
    let files = vec![(text("/h/.iota.yaml"), true), (text("/c/.iota.yaml"), false)];
    assert!(run_config(&cmd(None), config_facts(files.clone(), true), &mut io).is_ok());
    assert_eq!(
        io.stdout,
        "/h/.iota.yaml\n/c/.iota.yaml\nOK: 0 provider(s), 0 model(s), 0 agent(s), 0 mcp server(s)\n"
    );
    assert_eq!(
        io.stderr,
        "Warning: w\nWarning: no `agents.default` entry: a bare `iota` has nothing to run\n"
    );
    let mut io = Streams::default();
    let _ = run_config(&cmd(Some(ConfigAction::Path)), config_facts(files, true), &mut io);
    assert_eq!(io.stdout, "/h/.iota.yaml\n/c/.iota.yaml  (missing)\n");
    let mut io = Streams::default();
    let _ = run_config(&cmd(Some(ConfigAction::Path)), config_facts(Vec::new(), true), &mut io);
    assert_eq!(io.stdout, "No config file found. Run `iota config init` to write one.\n");
    let mut io = Streams::default();
    let r = run_config(&cmd(Some(ConfigAction::Init)), config_facts(Vec::new(), false), &mut io);
    assert_eq!(r.ok().expect("free"), Some(text("/h/.iota.yaml")));
    assert!(io.stdout.starts_with("Wrote /h/.iota.yaml\nNext: export OPENAI_API_KEY"));
    let mut io = Streams::default();
    let r = run_config(&cmd(Some(ConfigAction::Init)), config_facts(Vec::new(), true), &mut io);
    assert!(matches!(r, Err(CliError::Setup(SetupError::ConfigExists(p))) if p == "/h/.iota.yaml"));
    let mut facts = config_facts(Vec::new(), false);
    facts.home = None;
    let r = run_config(&cmd(Some(ConfigAction::Init)), facts, &mut Streams::default());
    assert!(matches!(r, Err(CliError::Setup(SetupError::NoHome))));
    let mut facts = config_facts(Vec::new(), false);
    facts.loaded = Err(ConfigError::Parse(text("line 1")));
    let r = run_config(&cmd(Some(ConfigAction::Check)), facts, &mut Streams::default());
    assert!(r.is_err());
}

/// A first run writes the file that `config init` would, and only when there is none.
#[test]
fn a_first_run_writes_the_starter() {
    let mut io = Streams::default();
    let home = Some(text("/h"));
    assert_eq!(auto_init(&None, 0, &home, &mut io), Some(text("/h/.iota.yaml")));
    assert_eq!(
        io.stderr,
        "Wrote /h/.iota.yaml (a starter config: openai + gpt-5.2; edit it, or set OPENAI_API_KEY and go)\n"
    );
    assert_eq!(auto_init(&None, 1, &home, &mut io), None);
    assert_eq!(auto_init(&Some(text("f")), 0, &home, &mut io), None);
    assert_eq!(auto_init(&None, 0, &None, &mut io), None);
}

// ---------------------------------------------------------------- the interactive entry

fn info(id: &str, title: &str) -> SessionInfo {
    SessionInfo {
        id: text(id),
        title: text(title),
        model: text("gpt-4o"),
        provider: text("openai"),
        age: None,
        message_count: 4,
    }
}

fn picker_matches() {
    let rows = vec![info("aaa", "first chat"), info("bbb", "")];
    let spec = picker_spec(&rows, &Some(text("proj")));
    assert_eq!(spec.panels.len(), 1);
    assert!(!spec.enter_advances);
    assert_eq!(spec.refresh_every_ms, 0);
    let panel = &spec.panels[0];
    assert_eq!(panel.title, PICK_SESSION_TITLE);
    assert_eq!(panel.title, "Select a session to resume");
    assert_eq!(panel.height, PICK_SESSION_HEIGHT);
    assert!(panel.search);
    assert_eq!(
        panel.items,
        vec![
            "first chat · gpt-4o · unknown · 4 msgs [proj]",
            "(untitled) · gpt-4o · unknown · 4 msgs [proj]",
        ]
    );
    // An unscoped listing carries no hint at all.
    assert_eq!(
        picker_spec(&rows, &None).panels[0].items[0],
        "first chat · gpt-4o · unknown · 4 msgs"
    );
}

/// ONE searchable list panel, 15 rows high, whose items are the rows of the LISTING.
#[test]
fn interactive_picker_spec_matches_pick_session() {
    picker_matches();
    assert_eq!(PICK_SESSION_HEIGHT, 15);
}

#[test]
fn picker_picker_spec_matches_pick_session() {
    picker_matches();
    let aged = SessionInfo { age: Some(text("2h ago")), ..info("c", "t") };
    assert_eq!(
        picker_spec(&vec![aged], &None).panels[0].items[0],
        "t · gpt-4o · 2h ago · 4 msgs"
    );
}

#[test]
fn interactive_project_hint_is_the_bucket_name() {
    assert_eq!(project_hint(&Some(text("/work/my-app"))), Some(text("my-app")));
    assert_eq!(project_hint(&None), None);
}

#[test]
fn picker_project_hint_is_the_bucket_name() {
    assert_eq!(project_hint(&Some(text("/work/my-app"))), Some(text("my-app")));
    assert_eq!(project_hint(&Some(text("/"))), Some(text("/")));
    assert_eq!(project_hint(&None), None);
}

#[test]
fn the_two_oscs_are_byte_exact() {
    assert_eq!(TITLE_STACK_PUSH, "\u{1b}[22;0t");
    assert_eq!(TITLE_STACK_POP, "\u{1b}[23;0t");
}

fn refusals() {
    assert_eq!(
        SetupError::NotATerminal.message(""),
        "interactive mode requires a terminal; use -m/--message for piped input"
    );
    assert_eq!(
        ArgsError::NoSaveWithResume.message(),
        "--no-save cannot be combined with iota resume"
    );
    assert_eq!(SetupError::NoSessionToResume.message(""), "no session to resume");
}

#[test]
fn interactive_refusal_texts_are_byte_exact() {
    refusals();
}

#[test]
fn mod_refusal_texts_are_byte_exact() {
    refusals();
    assert_eq!(CliError::Setup(SetupError::NotATerminal).message(""), SetupError::NotATerminal.message(""));
}

fn reply(cursor: usize) -> PickReply {
    PickReply::Left { cancelled: false, cursors: vec![cursor] }
}

/// Drives an opening, logging each action; `wired` is what the wiring gives, `started` what the start does.
fn drive(picked: Option<PickReply>, wired: bool, started: bool) -> (Vec<String>, Result<bool, CliError>, Option<usize>) {
    let mut log = Vec::new();
    let mut row = None;
    let mut picked = picked;
    let (mut opening, mut action) = Opening::begin(picked.is_some());
    loop {
        let event = match action {
            OpenAction::Detect => {
                log.push(text("detect"));
                OpenEvent::Detected(false)
            },
            OpenAction::Pick { .. } => {
                log.push(format!("surface:open:{PICK_SESSION_TITLE}"));
                let r = picked.take().expect("one picker");
                log.push(text("surface:released"));
                OpenEvent::Picked(r)
            },
            OpenAction::Wire { chosen, .. } => {
                row = chosen;
                if wired {
                    log.push(text("wire"));
                    OpenEvent::Wired(Ok(()))
                } else {
                    OpenEvent::Wired(Err(CliError::Setup(SetupError::NoSessionToResume)))
                }
            },
            OpenAction::PushTitle => {
                log.push(text("title:push"));
                OpenEvent::Pushed
            },
            OpenAction::Start { dark } => {
                log.push(format!("tui:start:dark={dark}"));
                OpenEvent::Started(if started { Ok(()) } else { Err(text("no terminal")) })
            },
            OpenAction::PopTitle => {
                log.push(text("title:pop"));
                OpenEvent::Popped
            },
            OpenAction::Finished(r) => return (log, r, row),
        };
        let (next, a) = opening.open_ui(event);
        opening = next;
        action = a;
    }
}

/// The probe runs first, the picker is RELEASED, and every fallible step has finished, before the title stack is
/// pushed and the loop claims the terminal. The wiring sees the committed row.
#[test]
fn mod_open_ui_releases_the_picker_before_tui_start() {
    let rows = vec![info("aaa", "a"), info("bbb", "b"), info("ccc", "c")];
    let (log, r, row) = drive(Some(reply(2)), true, true);
    assert!(!r.ok().expect("open_ui"), "the probe's answer reaches the caller");
    assert_eq!(picked_id(&rows, row).as_deref(), Some("ccc"), "the committed row is the id");
    assert_eq!(picked_id(&rows, Some(7)), None);
    assert_eq!(
        log,
        vec![
            "detect",
            "surface:open:Select a session to resume",
            "surface:released",
            "wire",
            "title:push",
            "tui:start:dark=false",
        ]
    );
}

#[test]
fn mod_open_ui_without_a_picker_never_opens_a_surface() {
    let (log, _, row) = drive(None, true, true);
    assert_eq!(row, None);
    assert_eq!(log, vec!["detect", "wire", "title:push", "tui:start:dark=false"]);
}

/// A cancelled picker commits nothing, and a wiring that then refuses must leave the terminal alone.
#[test]
fn mod_a_failed_wiring_never_starts_the_loop() {
    let cancelled = PickReply::Left { cancelled: true, cursors: vec![1] };
    let (log, r, row) = drive(Some(cancelled), false, true);
    assert_eq!(row, None, "a cancelled surface commits nothing");
    assert_eq!(r.err().expect("refused").message(""), "no session to resume");
    assert_eq!(
        log,
        vec!["detect", "surface:open:Select a session to resume", "surface:released"],
        "the title stack is untouched and the loop never starts"
    );
    let (log, r, _) = drive(Some(PickReply::Lost(text("gone"))), true, true);
    assert!(matches!(r, Err(CliError::Run(RunError::Join(_)))));
    assert_eq!(log.len(), 3);
    let (_, r, _) = drive(Some(PickReply::Failed(text("io"))), true, true);
    assert!(matches!(r, Err(CliError::Run(RunError::Io(_)))));
}

/// A start that fails after the push pops the stack again.
#[test]
fn mod_a_failed_start_pops_the_title_stack() {
    let (log, r, _) = drive(None, true, false);
    assert!(matches!(r, Err(CliError::Run(RunError::Io(e))) if e == "no terminal"));
    assert_eq!(log, vec!["detect", "wire", "title:push", "tui:start:dark=false", "title:pop"]);
}

fn invocation(no_save: bool, resume: Option<Resume>) -> Invocation {
    Invocation {
        agent: None,
        resume,
        config: None,
        args: RunArgs { no_save, ..RunArgs::default() },
    }
}

#[test]
fn an_interactive_run_starts_only_on_a_terminal() {
    let r = interactive_start(&invocation(true, Some(Resume::Pick)), false, false);
    assert!(matches!(r, Err(CliError::Args(ArgsError::NoSaveWithResume))));
    let r = interactive_start(&invocation(false, None), false, false);
    assert!(matches!(r, Err(CliError::Setup(SetupError::NotATerminal))));
    let s = interactive_start(&invocation(false, None), true, true).ok().expect("starts");
    assert!(s.ephemeral && !s.resume_given && !s.pick);
    let s = interactive_start(&invocation(false, Some(Resume::Pick)), true, true).ok().expect("starts");
    assert!(!s.ephemeral && s.resume_given && s.pick);
}

/// Drives an interactive run, logging each action.
fn drive_run(
    inv: &Invocation,
    rows: Result<Vec<SessionInfo>, String>,
    wired: bool,
    chat: Result<(), ReplError>,
    closed: Result<(), String>,
) -> (Vec<String>, Result<(), CliError>) {
    let mut log = Vec::new();
    let mut rows = Some(rows);
    let mut chat = Some(chat);
    let (mut run, mut action, _) = InteractiveRun::begin(inv, false, true).ok().expect("starts");
    loop {
        let event = match action {
            RunAction::List => {
                log.push(text("list"));
                RunEvent::Listed(rows.take().expect("one listing"))
            },
            RunAction::Connect => {
                log.push(text("connect"));
                RunEvent::Connected
            },
            RunAction::Open(a) => RunEvent::Opened(match a {
                OpenAction::Detect => OpenEvent::Detected(true),
                OpenAction::Pick { .. } => {
                    log.push(format!("pick of {}", run.rows().len()));
                    OpenEvent::Picked(reply(0))
                },
                OpenAction::Wire { chosen, .. } => {
                    log.push(format!("wire {:?}", picked_id(run.rows(), chosen)));
                    OpenEvent::Wired(if wired {
                        Ok(())
                    } else {
                        Err(CliError::Setup(SetupError::NoSessionToResume))
                    })
                },
                OpenAction::PushTitle => OpenEvent::Pushed,
                OpenAction::Start { .. } => OpenEvent::Started(Ok(())),
                OpenAction::PopTitle => OpenEvent::Popped,
                OpenAction::Finished(_) => unreachable!("the run takes the end of its opening"),
            }),
            RunAction::Chat { dark } => {
                log.push(format!("chat dark={dark}"));
                RunEvent::Chatted(chat.take().expect("one chat"))
            },
            RunAction::Close(c) => {
                log.push(format!("close {c:?}"));
                RunEvent::Closed(if c == Closing::Interface { closed.clone() } else { Ok(()) })
            },
            RunAction::Finished(r) => return (log, r),
        };
        (run, action) = run.run_interactive(event);
    }
}

#[test]
fn every_way_out_closes_the_servers() {
    let new = invocation(false, None);
    let (log, r) = drive_run(&new, Ok(Vec::new()), true, Ok(()), Ok(()));
    assert!(r.is_ok());
    assert_eq!(
        log,
        [
            "connect", "wire None", "chat dark=true", "close Interface", "close Title",
            "close Connect", "close Servers",
        ]
    );
    let (log, r) = drive_run(&new, Ok(Vec::new()), false, Ok(()), Ok(()));
    assert!(matches!(r, Err(CliError::Setup(SetupError::NoSessionToResume))));
    assert_eq!(log, ["connect", "wire None", "close Connect", "close Servers"]);
    let pick = invocation(false, Some(Resume::Pick));
    let (log, r) = drive_run(&pick, Err(text("unreadable")), true, Ok(()), Ok(()));
    assert!(matches!(r, Err(CliError::Setup(SetupError::ListSessions(_)))));
    assert_eq!(log, ["list"]);
    let (log, _) = drive_run(&pick, Ok(vec![info("aaa", "a")]), true, Ok(()), Ok(()));
    assert_eq!(log[..4], ["list", "connect", "pick of 1", "wire Some(\"aaa\")"]);
    // The chat's own failure first; else that of closing the interface.
    let (_, r) = drive_run(&new, Ok(Vec::new()), true, Ok(()), Err(text("draw")));
    assert!(matches!(r, Err(CliError::Run(RunError::Io(e))) if e == "draw"));
    let ui = Err(ReplError::Ui(text("closed")));
    let (_, r) = drive_run(&new, Ok(Vec::new()), true, ui, Err(text("draw")));
    assert!(matches!(r, Err(CliError::Run(RunError::Ui(_)))));
    let session = Err(ReplError::Session(text("s")));
    let (_, r) = drive_run(&new, Ok(Vec::new()), true, session, Ok(()));
    assert!(matches!(r, Err(CliError::Setup(SetupError::Session(_)))));
    let io = Err(ReplError::Io(text("s")));
    let (_, r) = drive_run(&new, Ok(Vec::new()), true, io, Ok(()));
    assert!(matches!(r, Err(CliError::Run(RunError::Io(_)))));
}

// ---------------------------------------------------------------- a run

fn config() -> Config {
    let mut cfg = Config::default();
    cfg.providers.insert(
        text("openai"),
        ProviderConfig { key: text("sk"), url: text("https://api"), ..ProviderConfig::default() },
    );
    cfg.models.insert(
        text("gpt"),
        ModelConfig { provider: text("openai"), id: text("gpt-5"), ..ModelConfig::default() },
    );
    cfg.agents.insert(
        text("default"),
        AgentConfig {
            models: vec![
                ModelRef::Entry(text("gpt")),
                ModelRef::Inline { provider: text("openai"), id: text("o9") },
                ModelRef::All { provider: text("openai") },
            ],
            description: text("all round"),
            ..AgentConfig::default()
        },
    );
    cfg
}

fn given(stdin: &str) -> Given {
    Given { system: Err(text("unused")), stdin: Ok(stdin.as_bytes().to_vec()) }
}

fn settings_of(inv: &Invocation) -> Result<RunSettings, CliError> {
    resolve_run(inv, &config(), &catalog(), &Env::default(), given(" from stdin \n"), &mut Vec::new())
}

fn with_message(m: Option<&str>) -> Invocation {
    Invocation {
        agent: None,
        resume: None,
        config: None,
        args: RunArgs { message: m.map(text), ..RunArgs::default() },
    }
}

#[test]
fn a_run_resolves_its_layers() {
    let s = settings_of(&with_message(Some("hi"))).ok().expect("resolves");
    assert_eq!(s.name, "default");
    assert_eq!(s.raw_type, "openai");
    assert_eq!(s.api_key, "sk");
    assert_eq!(s.base_url, "https://api");
    assert_eq!(s.model, "gpt-5");
    assert_eq!(s.message.as_deref(), Some("hi"));
    let s = settings_of(&with_message(Some("-"))).ok().expect("resolves");
    assert_eq!(s.message.as_deref(), Some("from stdin"));
    assert_eq!(message_in(" a b\n").ok().as_deref(), Some("a b"));
    assert!(matches!(message_in(" \n"), Err(ArgsError::EmptyStdin)));
    let r = settings_of(&with_message(Some("")));
    assert!(matches!(r, Err(CliError::Args(ArgsError::MessageEmpty))));
    let mut inv = with_message(Some("hi"));
    inv.agent = Some(text("nobody"));
    let e = settings_of(&inv).err().expect("unknown");
    assert_eq!(e.message(""), "unknown agent \"nobody\"\n  configured agents: default");
    let mut inv = with_message(Some("hi"));
    inv.args.model = Some(text("openai:o9"));
    assert_eq!(settings_of(&inv).ok().expect("resolves").model, "o9");
}

#[test]
fn what_a_headless_run_cannot_mean_is_refused() {
    let mut inv = with_message(Some("hi"));
    assert!(check_invocation(&inv).is_ok());
    inv.resume = Some(Resume::Pick);
    assert!(matches!(check_invocation(&inv), Err(CliError::Args(ArgsError::ResumeIdRequired))));
    inv.args.no_save = true;
    assert!(matches!(check_invocation(&inv), Err(CliError::Args(ArgsError::UnsupportedFlag("--no-save")))));
    inv.args.message = None;
    assert!(check_invocation(&inv).is_ok());
}

#[test]
fn the_output_format_describes_a_message() {
    let mut inv = with_message(Some("hi"));
    inv.args.output_format = Some(text("json"));
    let s = settings_of(&inv).ok().expect("resolves");
    assert!(matches!(output_format(&s), Ok(OutputFormat::Json)));
    inv.args.message = None;
    let s = settings_of(&inv).ok().expect("resolves");
    assert!(matches!(
        output_format(&s),
        Err(CliError::Args(ArgsError::OutputFormatWithoutMessage))
    ));
    inv.args.output_format = Some(text("xml"));
    let s = settings_of(&inv).ok().expect("resolves");
    assert!(matches!(
        output_format(&s),
        Err(CliError::Run(RunError::Chat(ChatError::BadFormat(_))))
    ));
}

fn place(root: Option<&str>) -> Place {
    Place {
        project_root: root.map(text),
        cwd: root.map(text),
        home: Some(text("/h")),
        cwd_error: text("gone"),
    }
}

#[test]
fn only_agent_mode_needs_a_directory() {
    assert!(!agent_options(false, &place(None)).ok().expect("off").enabled);
    let a = agent_options(true, &place(Some("/p"))).ok().expect("on");
    assert!(a.enabled);
    assert_eq!(a.root, "/p");
    assert!(matches!(
        agent_options(true, &place(None)),
        Err(CliError::Setup(SetupError::Cwd(e))) if e == "gone"
    ));
}

#[test]
fn the_tool_side_is_assembled_in_order() {
    let s = settings_of(&with_message(None)).ok().expect("resolves");
    let mut cfg = config();
    cfg.mcp_servers.insert(text("fs"), McpServerConfig { command: text("npx"), ..McpServerConfig::default() });
    let mut warn = Vec::new();
    let t = assemble_tools(&cfg, &s, ProviderKind::OpenAi, PLAIN, flags(), &place(None), &mut warn)
        .ok()
        .expect("assembled");
    assert_eq!(t.mcp_configs.len(), 3);
    assert!(t.asks && !t.agent.enabled);
    assert_eq!(warn.len(), 1, "{warn:?}");
    let r = assemble_tools(&cfg, &s, ProviderKind::OpenAi, PLAIN, vec![None], &place(None), &mut warn);
    assert!(matches!(r, Err(CliError::Args(ArgsError::McpFlag))));
}

#[test]
fn servers_that_did_not_answer_are_named() {
    let mut io = Streams::default();
    warn_connections(
        &vec![
            Connection { name: text("a"), connected: true, error: String::new() },
            Connection { name: text("b"), connected: false, error: text("refused") },
        ],
        &mut io,
    );
    assert_eq!(io.stderr, "Warning: mcp server b: refused\n");
}

#[test]
fn a_headless_resume_replays_the_model() {
    let meta = |provider: &str| SessionMeta {
        provider: text(provider),
        model: text("gpt-4o"),
        ..SessionMeta::default()
    };
    let mut inv = with_message(Some("hi"));
    inv.resume = Some(Resume::Id(text("abc")));
    let mut s = settings_of(&inv).ok().expect("resolves");
    assert_eq!(s.resume.as_deref(), Some("abc"));
    let m = resume_headless(&s, ProviderKind::OpenAi, &meta("openai"));
    assert_eq!(m.ok().expect("own model"), "gpt-5");
    let mut io = Streams::default();
    io.warning("Warning: replayed");
    announce_headless("abc1", 4, &mut io);
    assert_eq!(io.stderr, "Warning: replayed\nResumed session abc1 (4 messages)\n");
    assert_eq!(io.stdout, "");
    s.model = String::new();
    let m = resume_headless(&s, ProviderKind::OpenAi, &meta("openai"));
    assert_eq!(m.ok().expect("replayed"), "gpt-4o");
    let m = resume_headless(&s, ProviderKind::OpenAi, &meta("anthropic"));
    assert!(matches!(m, Err(CliError::Args(ArgsError::ModelRequired { agent })) if agent == "default"));
}

#[test]
fn a_resumed_run_keeps_its_images_inside() {
    let s = || settings_of(&with_message(Some("hi"))).ok().expect("resolves");
    let home = || Some(text("/h/.iota/images"));
    let o = once_options(text("hi"), s(), AgentOptions::default(), OutputFormat::Text, home(), None);
    assert_eq!(o.images_dir, home());
    assert!(o.history.is_empty());
    let session = ResumedSession { history: vec![Message::user("old")], images: text("/s/images") };
    let o = once_options(text("hi"), s(), AgentOptions::default(), OutputFormat::Json, home(), Some(session));
    assert_eq!(o.images_dir.as_deref(), Some("/s/images"));
    assert_eq!(o.history.len(), 1);
    let mut io = Streams::default();
    save_warning("disk full", &mut io);
    assert_eq!(io.stderr, "Warning: failed to save session: disk full\n");
    assert_eq!(version_line("1.2.3"), "iota 1.2.3\n");
}

/// Drives a headless run, logging each action.
fn headless(in_session: bool, resumed: bool, chat: Result<(), ChatError>) -> (Vec<&'static str>, Result<(), CliError>) {
    let mut log = Vec::new();
    let mut chat = Some(chat);
    let (mut run, mut action) = HeadlessRun::begin(in_session);
    loop {
        let event = match action {
            HeadlessAction::Resume => {
                log.push("resume");
                HeadlessEvent::Resumed(if resumed {
                    Ok(())
                } else {
                    Err(CliError::Setup(SetupError::Session(text("no such session"))))
                })
            },
            HeadlessAction::Replay => {
                log.push("replay");
                HeadlessEvent::Replayed
            },
            HeadlessAction::Announce => {
                log.push("announce");
                HeadlessEvent::Announced
            },
            HeadlessAction::Connect => {
                log.push("connect");
                HeadlessEvent::Connected
            },
            HeadlessAction::Chat => {
                log.push("chat");
                HeadlessEvent::Chatted(chat.take().expect("one turn"))
            },
            HeadlessAction::Save => {
                log.push("save");
                HeadlessEvent::Saved
            },
            HeadlessAction::CloseServers => {
                log.push("close");
                HeadlessEvent::Closed
            },
            HeadlessAction::Finished(r) => return (log, r),
        };
        let (next, a) = run.run_headless(event);
        run = next;
        action = a;
    }
}

#[test]
fn a_headless_run_closes_what_it_opened() {
    let (log, r) = headless(true, true, Ok(()));
    assert_eq!(log, ["resume", "replay", "announce", "connect", "chat", "save", "close"]);
    assert_eq!(exit_code(&r), 0);
    let (log, r) = headless(true, true, Err(ChatError::Interrupted));
    assert_eq!(log, ["resume", "replay", "announce", "connect", "chat", "close"]);
    assert_eq!(exit_code(&r), 130);
    let (log, r) = headless(false, true, Err(ChatError::Provider(text("boom"))));
    assert_eq!(log, ["connect", "chat", "close"]);
    assert_eq!(exit_code(&r), 1);
    let (log, r) = headless(true, false, Ok(()));
    assert_eq!(log, ["resume"]);
    assert!(r.is_err());
    let (log, _) = headless(false, true, Ok(()));
    assert_eq!(log, ["connect", "chat", "close"]);
}

// ---------------------------------------------------------------- the wiring

#[test]
fn a_resume_needs_a_session() {
    let id = |s: &str| Some(text(s));
    assert_eq!(resume_target(&id("ab"), Ok(text("abc")), &None).ok().expect("resolved"), "abc");
    assert!(matches!(
        resume_target(&id("ab"), Err(text("ambiguous")), &None),
        Err(CliError::Setup(SetupError::Session(_)))
    ));
    assert_eq!(resume_target(&None, Err(text("unused")), &id("xyz")).ok().expect("picked"), "xyz");
    assert!(matches!(
        resume_target(&None, Err(text("unused")), &None),
        Err(CliError::Setup(SetupError::NoSessionToResume))
    ));
    let mut io = Streams::default();
    announce_resume("abc", 4, &mut io);
    assert_eq!(io.stdout, "Resumed session abc (4 messages)\n\n");
}

#[test]
fn a_session_is_created_now_or_later() {
    let s = settings_of(&with_message(None)).ok().expect("resolves");
    let live = Live {
        scope: None,
        cwd: Some(text("/w")),
        model: text("gpt-5"),
        temperature: Some(d(0.3)),
    };
    assert!(matches!(session_plan(true, false, &s, ProviderKind::OpenAi, &live), SessionPlan::Resumed));
    match session_plan(false, false, &s, ProviderKind::OpenAi, &live) {
        SessionPlan::CreateNow(n) => {
            assert_eq!(n.cwd, "/w");
            assert_eq!(n.agent, "default");
            assert_eq!(n.temperature, None);
        },
        _ => panic!("a fresh run is saved at once"),
    }
    let scoped = Live { scope: Some(text("/p")), ..live };
    match session_plan(false, true, &s, ProviderKind::OpenAi, &scoped) {
        SessionPlan::CreateLater(n) => {
            assert_eq!(n.cwd, "/p");
            assert_eq!(n.temperature, Some(d(0.3)));
        },
        _ => panic!("an ephemeral run is saved on demand"),
    }
}

fn facts(window: &str) -> WireFacts {
    WireFacts {
        window: window_value(window),
        reports_usage: false,
        paints: false,
        builtin_tools: 2,
        connected: true,
        defers: Vec::new(),
    }
}

#[test]
fn the_wiring_evaluates_the_parameters() {
    let mut s = settings_of(&with_message(None)).ok().expect("resolves");
    s.resolved.model.context_window = text("400k");
    s.resolved.model.defer_mode = text("reference");
    let mut io = Streams::default();
    let w = finish_wiring(&config(), &s, ProviderKind::OpenAi, &catalog(), None, &facts("400k"), &mut io)
        .ok()
        .expect("wired");
    assert_eq!(w.params.context_window.value, 400_000);
    assert!(w.parts.builtin);
    assert_eq!(w.parts.mcp, McpMount::Full);
    assert_eq!(w.title.expect("titles").model, "gpt-5");
    assert_eq!(w.layers.model_of("gpt-5").expect("the entry").id, "gpt-5");
    assert_eq!(
        io.stderr,
        "Warning: context window does not apply to provider type openai (no token accounting)\n⚠ defer_mode has no effect without a deferred mcp server (add `defer: \"<summary>\"` to one)\n"
    );
    s.resolved.agent.context_window = text("oops");
    let e = finish_wiring(&config(), &s, ProviderKind::OpenAi, &catalog(), None, &facts("oops"), &mut io);
    assert_eq!(
        e.err().expect("no size").message(""),
        "agent context_window: invalid context window size: \"oops\""
    );
    assert!(title_provider(&s, ProviderKind::Imagen, true).is_none());
}

/// Wires a session; what was done on the way, what was printed, and what it came to.
fn wired(
    resume: Option<Option<String>>,
    ephemeral: bool,
    picked: Option<String>,
    fail: &str,
) -> (Vec<String>, String, Result<Wired, CliError>) {
    let mut s = settings_of(&with_message(None)).ok().expect("resolves");
    s.resolved.model.context_window = text("400k");
    let cfg = config();
    let catalog = catalog();
    let ctx = WireContext { cfg: &cfg, settings: &s, kind: ProviderKind::OpenAi, catalog: &catalog };
    let live = Live { scope: None, cwd: Some(text("/w")), model: text("gpt-5"), temperature: None };
    let mut io = Streams::default();
    let mut log = Vec::new();
    let (mut w, mut action) =
        SessionWiring::begin(&s, ProviderKind::OpenAi, &resume, ephemeral, &picked, &live);
    let or = |step: &str| if fail == step { Err(text("broken")) } else { Ok(()) };
    loop {
        let event = match action {
            WireAction::ResolveId(f) => {
                log.push(format!("resolve {f}"));
                WireEvent::Resolved(or("resolve").map(|_| format!("{f}-full")))
            },
            WireAction::Resume(id) => {
                log.push(format!("resume {id}"));
                let meta = SessionMeta { agent: text("gone"), ..SessionMeta::default() };
                WireEvent::Resumed(or("resume").map(|_| Bundle { meta, messages: 4 }))
            },
            WireAction::Replay { overrides_model, agent_exists } => {
                log.push(format!("replay {overrides_model} {agent_exists}"));
                assert_eq!(io.stdout, "", "announced only once it is replayed");
                WireEvent::Replayed
            },
            WireAction::Create(n) => {
                log.push(format!("create {}", n.cwd));
                WireEvent::Created(or("create"))
            },
            WireAction::Survey => {
                log.push(text("survey"));
                WireEvent::Surveyed(facts("400k"))
            },
            WireAction::MakeTitles(t) => {
                log.push(format!("titles {}", t.model));
                WireEvent::Titled(or("titles"))
            },
            WireAction::Finished(r) => return (log, io.stdout, r),
        };
        (w, action) = w.wire_session(&ctx, event, &mut io);
    }
}

#[test]
fn a_session_is_wired_in_order() {
    let (log, out, r) = wired(Some(Some(text("ab"))), true, None, "");
    assert_eq!(
        log,
        ["resolve ab", "resume ab-full", "replay true false", "survey", "titles gpt-5"]
    );
    assert_eq!(out, "Resumed session ab-full (4 messages)\n\n");
    assert!(matches!(r.ok().expect("wired").plan, SessionPlan::Resumed));
    let (log, _, r) = wired(Some(None), false, Some(text("picked")), "");
    assert_eq!(log[0], "resume picked");
    assert!(r.is_ok());
    let (log, _, r) = wired(None, false, None, "");
    assert_eq!(log, ["create /w", "survey", "titles gpt-5"]);
    assert!(matches!(r.ok().expect("wired").plan, SessionPlan::CreateNow(_)));
    let (log, out, r) = wired(None, true, None, "");
    assert_eq!(log, ["survey", "titles gpt-5"]);
    assert_eq!(out, "");
    assert!(matches!(r.ok().expect("wired").plan, SessionPlan::CreateLater(_)));
}

#[test]
fn a_session_that_cannot_be_had_ends_the_wiring() {
    for picked in [None, Some(String::new())] {
        let (log, out, r) = wired(Some(None), false, picked, "");
        assert!(log.is_empty() && out.is_empty());
        assert!(matches!(r, Err(CliError::Setup(SetupError::NoSessionToResume))));
    }
    let (_, out, r) = wired(Some(Some(text("ab"))), false, None, "resolve");
    assert_eq!(out, "");
    assert!(matches!(r, Err(CliError::Setup(SetupError::Session(_)))));
    let (log, _, r) = wired(Some(Some(text("ab"))), false, None, "resume");
    assert_eq!(log.len(), 2);
    assert!(matches!(r, Err(CliError::Setup(SetupError::Session(_)))));
    let (log, _, r) = wired(None, false, None, "create");
    assert_eq!(log, ["create /w"]);
    assert!(matches!(r, Err(CliError::Setup(SetupError::CreateSession(_)))));
    let (_, _, r) = wired(None, false, None, "titles");
    assert!(matches!(r, Err(CliError::Setup(SetupError::Provider(_)))));
}

/// The two modes of a switch that only a new mount would bring together.
#[test]
fn a_switch_can_drift_from_its_mount() {
    let mut cfg = config();
    cfg.models.insert(
        text("other"),
        ModelConfig {
            provider: text("openai"),
            id: text("o2"),
            defer_mode: text("tool-search"),
            ..ModelConfig::default()
        },
    );
    let s = settings_of(&with_message(None)).ok().expect("resolves");
    let layers = ParamLayers::new(&cfg, &s.resolved);
    assert_eq!(layers.defer_mode_drift("gpt-5"), None);
    assert_eq!(
        layers.defer_mode_drift("o2"),
        Some((DeferMode::Normal, DeferMode::ToolSearch))
    );
}

#[test]
fn a_recorded_window_beats_the_config() {
    let mut io = Streams::default();
    let r = resolve_context_window(Some(64_000), "400k", window_value("400k"), true, ProviderKind::OpenAi, &mut io);
    assert_eq!(r.ok(), Some(64_000));
    let r = resolve_context_window(Some(0), "400k", window_value("400k"), true, ProviderKind::OpenAi, &mut io);
    assert_eq!(r.ok(), Some(400_000));
    let r = resolve_context_window(None, "", None, true, ProviderKind::OpenAi, &mut io);
    assert_eq!(r.ok(), Some(0));
    assert!(resolve_context_window(None, "x", None, true, ProviderKind::OpenAi, &mut io).is_err());
    assert_eq!(io.stderr, "");
    let s = settings_of(&with_message(None)).ok().expect("resolves");
    let meta = SessionMeta {
        provider: text("openai"),
        context_window: 9,
        ..SessionMeta::default()
    };
    let p = resolve_params(&s.resolved, None, ProviderKind::OpenAi, true, Some(&meta), &mut io);
    assert_eq!(p.ok().expect("restored").context_window.value, 9);
}

// ---------------------------------------------------------------- listings

fn listing(what: Option<ListWhat>, agent: Option<&str>) -> Result<String, CliError> {
    let mut io = Streams::default();
    let w = Widths {
        agents: column_width(&vec![7]),
        starts: column_width(&vec![3, 5]),
        models: 4,
        sessions: 5,
    };
    let cmd = ListCmd { what, agent: agent.map(text) };
    let sessions = Ok(vec![(text("abc"), text("t · m · now · 1 msgs"))]);
    match run_list(&cmd, &config(), &catalog(), &Env::default(), &sessions, &w, &mut io) {
        Ok(()) => Ok(io.stdout),
        Err(e) => Err(e),
    }
}

#[test]
fn the_listings_say_what_the_config_declares() {
    assert_eq!(
        listing(None, None).ok().expect("agents"),
        "Agents:\n  default  gpt    3 choices  all round\n"
    );
    assert_eq!(
        listing(Some(ListWhat::Models), None).ok().expect("models"),
        "Models:\n  gpt   openai:gpt-5\n"
    );
    assert_eq!(
        listing(Some(ListWhat::Models), Some("default")).ok().expect("choices"),
        "Models for agent default:\n* gpt (openai:gpt-5)\n  openai:o9\n  openai:* (every model openai lists)\n"
    );
    assert_eq!(
        listing(Some(ListWhat::Providers), None).ok().expect("providers"),
        "Providers:\n  openai (url: https://api)  [key: config]\n"
    );
    assert_eq!(
        listing(Some(ListWhat::Sessions), None).ok().expect("sessions"),
        "Sessions:\n  abc    t · m · now · 1 msgs\n"
    );
    assert!(matches!(
        listing(Some(ListWhat::Providers), Some("default")),
        Err(CliError::Args(ArgsError::ListTakesNoName(w))) if w == "providers"
    ));
    assert!(matches!(
        listing(Some(ListWhat::Models), Some("nobody")),
        Err(CliError::Args(ArgsError::UnknownAgent { .. }))
    ));
    let p = ProviderConfig { url: text("u"), ..ProviderConfig::default() };
    assert_eq!(provider_line("work", "openai", &p), "work (type: openai, url: u)");
    assert_eq!(provider_line("openai", "openai", &ProviderConfig::default()), "openai");
    assert_eq!(column_width(&Vec::new()), 0);
}

// ---------------------------------------------------------------- delegation

fn delegates() -> (FlatConfig, DelegateConfig) {
    let mut cfg = FlatConfig::default();
    let mut tools = StrMap::new();
    tools.insert(text("code"), Yaml::Null);
    tools.insert(text("delegate"), Yaml::Null);
    cfg.providers.insert(
        text("fast"),
        LegacyProviderEntry {
            kind: text("openai"),
            key: text("sk"),
            model: text("gpt-5"),
            effort: text("low"),
            system_file: text("/s.md"),
            tools,
            ..LegacyProviderEntry::default()
        },
    );
    let mut conf = DelegateConfig { agents: StrMap::new(), max_turns: 3 };
    conf.agents.insert(
        text("review"),
        AgentRef::Full { provider: text("fast"), description: text("reviews") },
    );
    (cfg, conf)
}

fn quiet(tools: &StrMap<Yaml>, _: bool) -> ChildTools {
    assert!(!tools.contains_key("delegate"), "a child must not delegate");
    ChildTools { tools: vec![(text("read"), true)], warnings: Vec::new() }
}

#[test]
fn delegates_are_checked_at_startup() {
    let (cfg, conf) = delegates();
    let done = build_delegator_with_factory(&cfg, &conf, &quiet).ok().expect("built");
    assert_eq!(done.delegator.agent_names(), &vec![text("review")]);
    let info = done.delegator.agent("review").expect("known");
    assert_eq!(info.description, "reviews");
    assert!(info.read_only);
    assert_eq!(done.max_turns, Some(3));
    assert!(build_delegator(&cfg, &conf, &quiet).is_ok());

    let c = prepare_child(&done, "review", &catalog(), &Env::default()).ok().expect("a key");
    assert_eq!((c.api_key.as_str(), c.model.as_str()), ("sk", "gpt-5"));
    let env = Env::fixed(&[("OPENAI_API_KEY", "env")]);
    assert_eq!(prepare_child(&done, "review", &catalog(), &env).ok().expect("a key").api_key, "env");
    assert_eq!(
        prepare_child(&done, "nobody", &catalog(), &env).err().expect("unknown").message(""),
        "unknown agent \"nobody\""
    );
    let root = text("/p");
    let child = finish_child(&done, "review", Ok(b"be kind".to_vec()), &root, &None, &None);
    assert_eq!(child.ok().expect("a child").system, "be kind");
    let e = finish_child(&done, "review", Err(text("No such file")), &root, &None, &None);
    assert_eq!(
        e.err().expect("unreadable").message(""),
        "agent \"review\": system_file: open /s.md: No such file"
    );
}

fn refusal(f: impl FnOnce(&mut LegacyProviderEntry)) -> String {
    let (mut cfg, conf) = delegates();
    let (_, mut entry) = cfg.get("fast");
    f(&mut entry);
    cfg.providers.insert(text("fast"), entry);
    match build_delegator(&cfg, &conf, &quiet) {
        Ok(_) => String::new(),
        Err(e) => e.message("NUM"),
    }
}

#[test]
fn each_fault_of_a_delegate_is_named() {
    assert_eq!(refusal(|_| ()), "");
    assert_eq!(
        refusal(|e| e.model = String::new()),
        "agent \"review\": provider \"fast\" has no `model:` (a delegated agent cannot be asked to pick one)"
    );
    assert_eq!(
        refusal(|e| e.effort = text("turbo")),
        "agent \"review\": provider \"fast\" has effort \"turbo\": want low|medium|high|xhigh|max"
    );
    assert_eq!(
        refusal(|e| e.temperature = Some(d(2.5))),
        "agent \"review\": provider \"fast\" has temperature NUM: want 0.0-2.0"
    );
    assert_eq!(
        refusal(|e| e.top_p = Some(d(-0.1))),
        "agent \"review\": provider \"fast\" has top_p NUM: want 0.0-1.0"
    );
    let (cfg, mut conf) = delegates();
    let noisy = |_: &StrMap<Yaml>, _: bool| ChildTools {
        tools: Vec::new(),
        warnings: vec![text("one"), text("two")],
    };
    assert_eq!(
        build_delegator(&cfg, &conf, &noisy).err().expect("complaints").message(""),
        "agent \"review\": one; two"
    );
    conf.agents.insert(text("a"), AgentRef::Name(String::new()));
    assert_eq!(
        build_delegator(&cfg, &conf, &quiet).err().expect("nobody").message(""),
        "agent \"a\": no provider named"
    );
    conf.agents.insert(text("a"), AgentRef::Name(text("nope")));
    assert_eq!(
        build_delegator(&cfg, &conf, &quiet).err().expect("unknown").message(""),
        "agent \"a\": unknown provider \"nope\""
    );
    let none = DelegateConfig { agents: StrMap::new(), max_turns: 0 };
    assert_eq!(
        build_delegator(&cfg, &none, &quiet).err().expect("no agents").message(""),
        "no agents configured (add `agents:` mapping agent names to provider names)"
    );
    let keyless = |kind: &str| {
        let (mut cfg, conf) = delegates();
        let (_, mut entry) = cfg.get("fast");
        entry.key = String::new();
        entry.kind = text(kind);
        cfg.providers.insert(text("fast"), entry);
        build_delegator_with_factory(&cfg, &conf, &quiet).ok().expect("built")
    };
    assert_eq!(
        prepare_child(&keyless("openai"), "review", &catalog(), &Env::default())
            .err()
            .expect("no key")
            .message(""),
        "agent \"review\": API key is required (set OPENAI_API_KEY or `key:`)"
    );
}

#[test]
fn a_child_keeps_its_tools_but_one() {
    let mut tools = StrMap::new();
    tools.insert(text("code"), Yaml::Null);
    tools.insert(text("delegate"), Yaml::Null);
    let kept = child_tools(&tools);
    assert!(kept.contains_key("code") && !kept.contains_key("delegate"));
    assert_eq!(kept.len(), 1);
    let built = build_child_tools(&kept, true, &|_: &StrMap<Yaml>, agent: bool| ChildTools {
        tools: vec![(text("edit"), !agent)],
        warnings: Vec::new(),
    });
    assert!(!read_only_registry(&built));
    let r = AgentRef::Name(text("openai"));
    assert_eq!((r.provider(), r.description()), ("openai", ""));
}

// ---------------------------------------------------------------- the command line

#[test]
fn a_bare_invocation_is_a_run() {
    let cli = Cli { command: None, config: Some(text("f")), run: RunArgs::default() };
    assert!(cli.check_flag_placement().is_ok());
    let (command, config) = cli.into_command();
    assert_eq!(config.as_deref(), Some("f"));
    match command {
        Command::Run(RunCmd { agent, args }) => {
            assert!(agent.is_none());
            assert_eq!(args.first_given(), None);
        },
        _ => panic!("a bare invocation runs"),
    }
    let misplaced = Cli {
        command: Some(Command::Version),
        config: None,
        run: RunArgs { max_turns: 3, ..RunArgs::default() },
    };
    assert_eq!(
        misplaced.check_flag_placement().err().expect("misplaced"),
        "'--max-turns' is a flag of `iota run`; put it after the 'version' command"
    );
    let blank = Invocation::of_resume(
        ResumeCmd { id: Some(text("  ")), args: RunArgs::default() },
        None,
    );
    assert!(matches!(blank.resume, Some(Resume::Pick)));
}

#[test]
fn a_reading_of_nothing_is_null() {
    assert!(matches!(read(b""), Ok(Yaml::Null)));
    assert_eq!(RunRecorder::start().round_count(), 0);
}
