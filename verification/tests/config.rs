//! The config: its document rules, its merge, its references, its layered parameters and its rewrite.

use iota::app::env::Env;
use iota::config::agent::AgentConfig;
use iota::config::edit::{
    locate_block, read_mcp_servers, rewrite_mcp_servers, write_mcp_servers, ServersRead,
};
use iota::config::error::ConfigError;
use iota::config::flat::{FlatConfig, FlatRead};
use iota::config::migrate::{rename_skills_set, LegacyProviderEntry};
use iota::config::model::{ModelConfig, ModelEntry, ModelRef};
use iota::config::params::{Declared, ParamLayers};
use iota::config::provider::{ApiKey, ProviderConfig};
use iota::config::server::{AuthMode, McpServerConfig};
use iota::config::strict::audit;
use iota::config::{check_document, config_candidates, Config, ConfigFile, FileRead, Resolved};
use iota::double::Double;
use iota::map::StrMap;
use iota::provider::{Catalog, DeferMode, Dialect, Effort, ProviderKind};
use iota::session::{LayeredParams, Param, ParamSource, ParamSources, SessionMeta};
use iota::yaml::{print, read, spelled_bool, Yaml};

fn servers(entries: Vec<(&str, McpServerConfig)>) -> StrMap<McpServerConfig> {
    let mut m = StrMap::new();
    for (n, c) in entries {
        m.insert(n.to_owned(), c);
    }
    m
}

fn texts(pairs: &[(&str, &str)]) -> StrMap<String> {
    let mut m = StrMap::new();
    for (k, v) in pairs {
        m.insert((*k).to_owned(), (*v).to_owned());
    }
    m
}

fn stdio(command: &str, args: &[&str]) -> McpServerConfig {
    McpServerConfig {
        command: command.to_owned(),
        args: args.iter().map(|a| (*a).to_owned()).collect(),
        ..McpServerConfig::default()
    }
}

fn rewritten(text: &str, s: &StrMap<McpServerConfig>) -> String {
    match rewrite_mcp_servers(text, s) {
        Ok(out) => out,
        Err(e) => panic!("{}", e.message()),
    }
}

/// A document with everything a scan could trip on: a heading comment, odd indentation, a block scalar with a
/// `key:`-shaped line, a flow mapping spanning lines, a column-0 comment INSIDE the block, and `providers:` AFTER
/// `mcp_servers:`.
const SAMPLE: &str = "\
# top comment

models:
  gpt:
      provider: openai   # deeper than usual
      id: gpt-5

# MCP tool servers
mcp_servers:
  fs:
    command: npx
    # an indented comment inside the block
    args: [\"-y\",
      \"server-fs\"]
# a column-0 comment inside the block
  old:
    url: https://old.example/mcp

# The endpoints, after the servers on purpose
providers:
  openai:
    key: k
agents:
  default:
    model: gpt
    system: |
      not_a_key: this line is a block scalar
";

#[test]
fn locate_block_finds_the_key_line_and_its_indented_tail() {
    let range = locate_block(SAMPLE, "mcp_servers").expect("the block is there");
    let block = &SAMPLE[range.clone()];
    assert!(block.starts_with("mcp_servers:\n"), "{block}");
    assert!(
        block.ends_with("    url: https://old.example/mcp\n"),
        "the block ends with its last indented line:\n{block}"
    );
    assert!(
        block.contains("# a column-0 comment inside the block"),
        "a column-0 comment between two entries is inside the block"
    );
    // The heading comment above and the blank line + heading below are NOT in the block.
    assert!(SAMPLE[..range.start].ends_with("# MCP tool servers\n"));
    assert!(SAMPLE[range.end..].starts_with("\n# The endpoints"));
    // Other keys, and a `key:`-shaped line inside a block scalar, are located by the same rule.
    assert_eq!(
        &SAMPLE[locate_block(SAMPLE, "providers").expect("providers")],
        "providers:\n  openai:\n    key: k\n"
    );
    assert!(locate_block(SAMPLE, "not_a_key").is_none());
    assert!(locate_block(SAMPLE, "gpt").is_none(), "only column-0 keys count");
    // The last block of a file runs to the end of the file.
    let agents = locate_block(SAMPLE, "agents").expect("agents");
    assert_eq!(agents.end, SAMPLE.len());
    // Quoted keys, inline values and a bare key are all found; `---` is not a key.
    assert_eq!(locate_block("---\n\"mcp_servers\": {}\nx: 1\n", "mcp_servers"), Some(4..22));
    assert_eq!(locate_block("mcp_servers:", "mcp_servers"), Some(0..12));
    assert_eq!(locate_block("mcp_servers:\n", "mcp_servers"), Some(0..13));
    assert!(locate_block("x: 1\n", "mcp_servers").is_none());
    assert!(locate_block("", "mcp_servers").is_none());
}

/// Ranges count bytes, not characters.
#[test]
fn ranges_count_bytes() {
    let text = "# é\nmcp_servers:\n  a: {}\n";
    let range = locate_block(text, "mcp_servers").expect("block");
    assert_eq!(&text[range], "mcp_servers:\n  a: {}\n");
}

#[test]
fn rewrite_keeps_every_byte_outside_the_block() {
    let range = locate_block(SAMPLE, "mcp_servers").expect("block");
    let new = servers(vec![("fs", stdio("npx", &["-y", "server-fs", "${cwd}"]))]);
    let out = rewritten(SAMPLE, &new);
    // Byte for byte: the prefix and the suffix are the sample's own.
    assert_eq!(&out[..range.start], &SAMPLE[..range.start]);
    assert!(out.ends_with(&SAMPLE[range.end..]));
    let written = &out[range.start..out.len() - (SAMPLE.len() - range.end)];
    assert_eq!(
        written,
        "mcp_servers:\n  fs:\n    command: npx\n    args:\n    - -y\n    - server-fs\n    - ${cwd}\n"
    );
    // …and what was written reads back as exactly that entry, in a document that parses.
    let doc = read(out.as_bytes()).expect("the rewritten document parses");
    let fs = doc.field("mcp_servers").and_then(|s| s.field("fs")).expect("the entry");
    assert_eq!(fs.field("command").and_then(Yaml::as_text).map(String::as_str), Some("npx"));
    match fs.field("args") {
        Some(Yaml::List(args)) => {
            let args: Vec<&str> = args.iter().map(|a| a.as_text().expect("text").as_str()).collect();
            assert_eq!(args, ["-y", "server-fs", "${cwd}"]);
        },
        _ => panic!("args is a list"),
    }
    assert!(doc.field("models").and_then(|m| m.field("gpt")).is_some(), "the other layers are untouched");
}

#[test]
fn rewrite_covers_the_four_block_positions() {
    let one = servers(vec![("s", stdio("srv", &[]))]);
    let block = "mcp_servers:\n  s:\n    command: srv\n";

    // Absent: appended after exactly one blank line, whether or not the file ends with a newline.
    assert_eq!(
        rewritten("providers:\n  p: {key: k}\n", &one),
        format!("providers:\n  p: {{key: k}}\n\n{block}")
    );
    assert_eq!(
        rewritten("providers:\n  p: {key: k}", &one),
        format!("providers:\n  p: {{key: k}}\n\n{block}")
    );
    assert_eq!(
        rewritten("providers:\n  p: {key: k}\n\n\n", &one),
        format!("providers:\n  p: {{key: k}}\n\n\n{block}"),
        "existing blank lines are not collapsed"
    );
    // Empty file: the block alone.
    assert_eq!(rewritten("", &one), block);
    // In the middle: replaced in place, neighbours untouched.
    let middle = "a: 1\nmcp_servers:\n  old: {command: x}\n\n# next\nb: 2\n";
    assert_eq!(rewritten(middle, &one), format!("a: 1\n{block}\n# next\nb: 2\n"));
    // At the end, with a stale inline value.
    assert_eq!(
        rewritten("a: 1\nmcp_servers: {old: {command: x}}\n", &one),
        format!("a: 1\n{block}")
    );
    // An empty map REMOVES the block: in the middle the neighbours close up; at the end the separating blank line
    // goes too; a document without the block is returned as it came.
    let none = StrMap::new();
    assert_eq!(rewritten(middle, &none), "a: 1\n\n# next\nb: 2\n");
    assert_eq!(rewritten(&format!("a: 1\n\n{block}"), &none), "a: 1\n");
    assert_eq!(rewritten(block, &none), "");
    assert_eq!(rewritten("a: 1\n", &none), "a: 1\n");
}

/// Of two rewrites the later one stands, and an appended block can be removed again.
#[test]
fn rewrites_do_not_pile_up() {
    let one = servers(vec![("s", stdio("srv", &[]))]);
    let two = servers(vec![("t", stdio("other", &["-x"])), ("u", stdio("third", &[]))]);
    for text in ["", "a: 1\n", "a: 1", SAMPLE] {
        assert_eq!(rewritten(&rewritten(text, &one), &two), rewritten(text, &two));
        assert_eq!(rewritten(&rewritten(text, &one), &one), rewritten(text, &one));
    }
    assert_eq!(rewritten(&rewritten("a: 1\n", &one), &StrMap::new()), "a: 1\n");
}

#[test]
fn every_default_field_is_left_out_of_a_written_entry() {
    let both = servers(vec![
        (
            "fs",
            McpServerConfig {
                command: "npx".to_owned(),
                env: texts(&[("LOG", "info")]),
                defer: Some("file tools".to_owned()),
                ..McpServerConfig::default()
            },
        ),
        (
            "gh",
            McpServerConfig {
                url: "https://gh.example/mcp".to_owned(),
                headers: texts(&[("Authorization", "Bearer ${env:GH}")]),
                ..McpServerConfig::default()
            },
        ),
    ]);
    assert_eq!(
        rewritten("", &both),
        "mcp_servers:\n  fs:\n    command: npx\n    env:\n      LOG: info\n    defer: file tools\n  gh:\n    url: https://gh.example/mcp\n    headers:\n      Authorization: Bearer ${env:GH}\n"
    );
}

#[test]
fn read_and_write_go_through_the_file() {
    let fresh = read_mcp_servers("f", ServersRead::Missing).ok().expect("missing reads as empty");
    assert_eq!(fresh.text, "");
    assert_eq!(fresh.servers.len(), 0);

    let own = servers(vec![("fs", stdio("npx", &[]))]);
    let got = read_mcp_servers("f", ServersRead::Bytes(SAMPLE.as_bytes().to_vec(), Ok(own)))
        .ok()
        .expect("read");
    assert_eq!(got.text, SAMPLE);
    assert!(got.servers.contains_key("fs"));

    let mut written = String::new();
    let done = write_mcp_servers("f", &got.text, &got.servers, |t: &String| {
        written = t.clone();
        Ok(())
    });
    assert!(done.is_ok());
    assert!(written.starts_with("# top comment\n"), "prefix kept");
    assert!(written.contains("\n# The endpoints, after the servers on purpose\nproviders:\n"));

    // A file that does not load is refused, naming the file and the coordinate.
    let fault = check_document(b"providers:\n  p: {kye: k}\n").err().expect("an unknown key");
    let err = read_mcp_servers("f.yaml", ServersRead::Bytes(Vec::new(), Err(fault.message())));
    assert_eq!(
        err.err().expect("refused").message(),
        "config f.yaml: providers.p.kye: unknown key (want type, key, url)"
    );
    let err = read_mcp_servers("f", ServersRead::Bytes(vec![0xff, 0xfe], Ok(StrMap::new())));
    assert!(err.err().expect("no UTF-8").message().starts_with("config f: invalid utf-8"));
    let err = read_mcp_servers("f", ServersRead::Failed("denied".to_owned()));
    assert_eq!(err.err().expect("unreadable").message(), "config f: denied");
    let err = write_mcp_servers("f", "", &StrMap::new(), |_: &String| Err("full".to_owned()));
    assert_eq!(err.err().expect("unwritable").message(), "config f: full");
}

/// Audits one document, returning the error text (`""` when it passes).
fn check(yaml: &str) -> String {
    let doc = read(yaml.as_bytes()).expect("valid yaml");
    audit(&doc).err().map(|e| e.message()).unwrap_or_default()
}

#[test]
fn a_three_layer_document_passes() {
    assert_eq!(
        check(
            "providers:\n  openai: {key: k}\nmodels:\n  gpt: openai:gpt-5\nagents:\n  default:\n    models: [gpt]\n    tools: {code: {}, shell: {}}\n"
        ),
        ""
    );
    // An empty document and an empty section are both fine.
    assert_eq!(check(""), "");
    assert_eq!(check("providers:\nmodels: {}\n"), "");
}

#[test]
fn a_key_of_another_layer_names_that_layer() {
    assert_eq!(
        check("providers:\n  openai: {key: k, system: hi}\n"),
        "providers.openai.system: `system` belongs under `agents:` (see README, \"The three layers\")"
    );
    assert_eq!(
        check("providers:\n  openai: {key: k, effort: high}\n"),
        "providers.openai.effort: `effort` belongs under `models:` (see README, \"The three layers\")"
    );
    assert_eq!(
        check("agents:\n  a: {models: [x], url: https://x}\n"),
        "agents.a.url: `url` belongs under `providers:` (see README, \"The three layers\")"
    );
    // The four layered parameters live in BOTH `models:` and `agents:`, so neither reports the other.
    assert_eq!(check("models:\n  m: {provider: p, id: i, top_p: 0.5}\n"), "");
    assert_eq!(check("agents:\n  a: {models: [m], top_p: 0.5}\n"), "");
    assert_eq!(check("models:\n  m: {provider: p, id: i, context_window: 400k}\n"), "");
    assert_eq!(check("agents:\n  a: {models: [m], context_window: 400k}\n"), "");
}

#[test]
fn retired_keys_name_their_replacement() {
    assert!(
        check("providers:\n  openai: {key: k, model: gpt-4o}\n")
            .starts_with("providers.openai.model: `model` is now a `models:` entry"),
    );
    assert_eq!(
        check("providers:\n  openai: {key: k, agent: true}\n"),
        "providers.openai.agent: `agent` is now `workspace:` on an `agents:` entry"
    );
}

#[test]
fn unknown_keys_are_refused_wherever_they_are() {
    assert_eq!(
        check("providers:\n  openai: {kye: k}\n"),
        "providers.openai.kye: unknown key (want type, key, url)"
    );
    assert_eq!(
        check("agnets:\n  a: {}\n"),
        "agnets: unknown top-level key (want providers:, models:, agents:, mcp_servers:)"
    );
    assert_eq!(
        check("mcp_servers:\n  fs: {commadn: npx}\n"),
        "mcp_servers.fs.commadn: unknown key (want command, args, url, env, headers, defer)"
    );
}

#[test]
fn toolset_names_are_checked_where_they_are_written() {
    assert_eq!(
        check("agents:\n  a: {models: [m], tools: {nosuchset: {}}}\n"),
        "agents.a.tools.nosuchset: unknown toolset (want shell, skills, code, ask)"
    );
    assert_eq!(
        check("agents:\n  a: {models: [m], tools: {agent: {}}}\n"),
        "agents.a.tools.agent: the `agent` toolset is now called `skills` (the word `agent` names a config layer)"
    );
    assert_eq!(
        check("agents:\n  a: {models: [m], tools: {delegate: [r]}}\n"),
        "agents.a.tools.delegate: the `delegate` toolset was removed — run child agents from bash instead (see README)"
    );
}

#[test]
fn yaml_reads_and_prints() {
    assert!(read(b"a: [").is_err());
    assert!(check_document(b"a: [").is_err());
    let y = Yaml::Mapping(vec![(
        Yaml::Text("a".to_owned()),
        Yaml::List(vec![Yaml::Bool(true), Yaml::Null, Yaml::Text("x y".to_owned())]),
    )]);
    assert_eq!(print(&y).expect("prints"), "a:\n- true\n- null\n- x y\n");
}

fn d(x: f64) -> Double {
    Double { bits: x.to_bits() }
}

/// An agent declaring all four.
fn agent() -> AgentConfig {
    AgentConfig {
        context_window: "400k".to_owned(),
        effort: "high".to_owned(),
        temperature: Some(d(0.4)),
        top_p: Some(d(0.8)),
        ..AgentConfig::default()
    }
}

/// A model declaring all four, different values.
fn model() -> ModelConfig {
    ModelConfig {
        context_window: "128k".to_owned(),
        effort: "low".to_owned(),
        temperature: Some(d(0.9)),
        top_p: Some(d(0.5)),
        ..ModelConfig::default()
    }
}

fn same<T: PartialEq>(a: &Param<T>, b: &Param<T>) -> bool {
    a.value == b.value && a.source == b.source
}

fn builtin<T: Default>() -> Param<T> {
    Param::builtin(T::default())
}

/// The `agents:` entry outranks the model, per key: a key only the model declares still lands.
#[test]
fn the_agent_overrides_the_model_key_by_key() {
    let x = Declared::of(&agent(), &model(), Some(400_000));
    assert_eq!(x.effort.as_deref(), Some("high"));
    assert_eq!(x.temperature, Some(d(0.4)));
    assert_eq!(x.top_p, Some(d(0.8)));
    assert_eq!(
        Declared::window_decl(&agent(), &model()).map(|w| (w.raw, w.label)),
        Some(("400k".to_owned(), "agent context_window"))
    );

    // Only the model declares: the model's value is the declaration.
    let x = Declared::of(&AgentConfig::default(), &model(), Some(128_000));
    assert_eq!(x.effort.as_deref(), Some("low"));
    assert_eq!(x.temperature, Some(d(0.9)));
    assert_eq!(x.top_p, Some(d(0.5)));
    assert_eq!(
        Declared::window_decl(&AgentConfig::default(), &model()).map(|w| w.label),
        Some("config context_window")
    );

    // Neither: silence.
    let x = Declared::of(&AgentConfig::default(), &ModelConfig::default(), None);
    assert!(x.context_window.is_none() && x.effort.is_none());
    assert!(x.temperature.is_none() && x.top_p.is_none());
    assert!(Declared::window_decl(&AgentConfig::default(), &ModelConfig::default()).is_none());
}

/// A new session: the agent, then the model, then the built-in default.
#[test]
fn a_new_session_evaluates_the_two_config_layers() {
    let x = Declared::of(&agent(), &model(), Some(400_000));
    let p = x.evaluate(&LayeredParams::default());
    assert!(same(&p.context_window, &Param::config(400_000)));
    assert!(same(&p.effort, &Param::config("high".to_owned())));
    assert!(same(&p.temperature, &Param::config(Some(d(0.4)))));
    assert!(same(&p.top_p, &Param::config(Some(d(0.8)))));

    let p = Declared::default().evaluate(&LayeredParams::default());
    assert!(same(&p.context_window, &builtin()));
    assert!(same(&p.effort, &builtin()));
    assert!(same(&p.temperature, &builtin()));
    assert!(same(&p.top_p, &builtin()));
    assert_eq!(p.effort.source, ParamSource::Builtin);
}

/// A switch onto a model that declares NOTHING: the inherited value is dropped, the typed one is kept.
#[test]
fn a_switch_drops_an_inherited_value_and_keeps_a_typed_one() {
    let current = LayeredParams {
        context_window: Param::config(400_000),
        effort: Param::user("max".to_owned()),
        temperature: Param::config(Some(d(0.4))),
        top_p: builtin(),
    };
    let p = Declared::default().evaluate(&current);
    assert!(
        same(&p.context_window, &builtin()),
        "a window that came from a declaration must not follow the session onto another model"
    );
    assert!(same(&p.temperature, &builtin()));
    assert!(
        same(&p.effort, &Param::user("max".to_owned())),
        "what the user typed is the session's own and survives config silence"
    );
    assert!(same(&p.top_p, &builtin()), "a built-in default stays one");
}

/// A switch onto a model that DOES declare: the declaration outranks the session's value.
#[test]
fn a_declaration_outranks_the_session_value() {
    let current = LayeredParams {
        context_window: Param::user(64_000),
        effort: Param::user("max".to_owned()),
        temperature: Param::user(Some(d(1.5))),
        top_p: Param::user(Some(d(0.1))),
    };
    let p = Declared::of(&AgentConfig::default(), &model(), Some(128_000)).evaluate(&current);
    assert!(same(&p.context_window, &Param::config(128_000)));
    assert!(same(&p.effort, &Param::config("low".to_owned())));
    assert!(same(&p.temperature, &Param::config(Some(d(0.9)))));
    assert!(same(&p.top_p, &Param::config(Some(d(0.5)))));
}

/// A resume: the recorded values come back with their own tags, whatever the config says NOW.
#[test]
fn a_resume_restores_the_bundle_rather_than_evaluating() {
    let meta = SessionMeta {
        provider: "openai".to_owned(),
        context_window: 64_000,
        effort: "max".to_owned(),
        param_sources: Some(ParamSources {
            context_window: ParamSource::Config,
            effort: ParamSource::User,
            ..ParamSources::default()
        }),
        ..SessionMeta::default()
    };
    let p = Declared::of(&agent(), &model(), Some(400_000)).resume(&meta, true);
    assert!(
        same(&p.context_window, &Param::config(64_000)),
        "a recorded value is the session's current value, config or no config"
    );
    assert!(same(&p.effort, &Param::user("max".to_owned())));
    // The two it carries NO value for are not gaps.
    assert!(same(&p.temperature, &builtin()));
    assert!(same(&p.top_p, &builtin()));

    // And the restored tags are what the NEXT switch acts on.
    let after = Declared::default().evaluate(&p);
    assert!(same(&after.context_window, &builtin()));
    assert!(same(&after.effort, &Param::user("max".to_owned())));
}

/// A session that recorded no sources comes back as the user's own.
#[test]
fn a_bundle_without_sources_is_read_as_the_users_own() {
    let meta = || SessionMeta {
        provider: "openai".to_owned(),
        context_window: 200_000,
        effort: "high".to_owned(),
        temperature: Some(d(0.7)),
        ..SessionMeta::default()
    };
    assert!(!meta().records_params(), "the key is not there at all");
    assert_eq!(
        meta().sources(),
        ParamSources {
            context_window: ParamSource::User,
            effort: ParamSource::User,
            temperature: ParamSource::User,
            top_p: ParamSource::User,
        },
        "and its absence reads as the user's own"
    );
    let p = Declared::default().resume(&meta(), true);
    assert!(same(&p.context_window, &Param::user(200_000)));
    assert!(same(&p.effort, &Param::user("high".to_owned())));
    assert!(same(&p.temperature, &Param::user(Some(d(0.7)))));
    assert!(same(&p.top_p, &builtin()), "the bundle recorded no top_p");

    let after = Declared::default().evaluate(&p);
    assert!(same(&after.context_window, &Param::user(200_000)), "nothing is lost");
    assert!(same(&after.effort, &Param::user("high".to_owned())));
    assert!(same(&after.temperature, &Param::user(Some(d(0.7)))));

    // Written by a program that knows the layering, the silence about `top_p` is a statement.
    let declared = Declared { top_p: Some(d(0.5)), ..Declared::default() };
    let complete = SessionMeta { param_sources: Some(ParamSources::default()), ..meta() };
    assert!(same(&declared.resume(&meta(), true).top_p, &Param::config(Some(d(0.5)))));
    assert!(same(&declared.resume(&complete, true).top_p, &builtin()));
}

/// A session whose tuning does not apply to this run recorded nothing FOR it.
#[test]
fn a_bundle_that_does_not_replay_records_nothing() {
    let meta = SessionMeta {
        provider: "anthropic".to_owned(),
        context_window: 64_000,
        ..SessionMeta::default()
    };
    let p = Declared::of(&AgentConfig::default(), &model(), Some(128_000)).resume(&meta, false);
    assert!(same(&p.context_window, &Param::config(128_000)));

    let meta = SessionMeta {
        provider: "openai".to_owned(),
        effort: "turbo".to_owned(),
        ..SessionMeta::default()
    };
    let p = Declared::of(&AgentConfig::default(), &model(), None).resume(&meta, true);
    assert!(same(&p.effort, &Param::config("low".to_owned())));
}

/// A `models:` entry is found by the `provider:id` it names; an id the config never mentions leaves the model
/// layer silent, and the agent's override applies either way.
#[test]
fn the_models_layer_is_found_by_provider_and_id() {
    let mut cfg = Config::default();
    cfg.models.insert(
        "gpt5".to_owned(),
        ModelConfig {
            provider: "openai".to_owned(),
            id: "gpt-5.2".to_owned(),
            context_window: "400k".to_owned(),
            effort: "high".to_owned(),
            ..ModelConfig::default()
        },
    );
    // An entry named after its provider needs no `provider:` line, and must still answer for it.
    cfg.models.insert(
        "anthropic".to_owned(),
        ModelConfig {
            id: "sonnet-x".to_owned(),
            effort: "low".to_owned(),
            ..ModelConfig::default()
        },
    );
    let resolved = Resolved {
        provider_name: "openai".to_owned(),
        agent: AgentConfig { temperature: Some(d(0.2)), ..AgentConfig::default() },
        ..Resolved::default()
    };
    let layers = ParamLayers::new(&cfg, &resolved);

    let w = layers.window_for("gpt-5.2").expect("a window is declared");
    assert_eq!(w.raw, "400k");
    let x = layers.declared("gpt-5.2", Some(400_000));
    assert_eq!(x.context_window, Some(400_000));
    assert_eq!(x.effort.as_deref(), Some("high"));
    assert_eq!(x.temperature, Some(d(0.2)), "the agent's override still applies");

    // The same id on another provider is another model.
    assert!(layers.model_of("sonnet-x").is_none());
    // A raw id the config never mentions: nothing but the agent's override is declared.
    assert!(layers.window_for("gpt-4o-mini").is_none(), "no window is declared");
    let x = layers.declared("gpt-4o-mini", None);
    assert_eq!(x.context_window, None);
    assert_eq!(x.effort, None);
    assert_eq!(x.temperature, Some(d(0.2)));
}

#[test]
fn references_read_back() {
    for text in ["sonnet", "openai:gpt-5", "openai:*", "bedrock:anthropic.sonnet:v1"] {
        assert_eq!(ModelRef::parse(text).ok().expect(text).to_text(), text);
    }
    assert!(matches!(ModelRef::parse("a:b:c"), Ok(ModelRef::Inline { provider, id }) if provider == "a" && id == "b:c"));
    for bad in ["", ":x", "x:"] {
        assert!(ModelRef::parse(bad).is_err(), "{bad:?}");
    }
    assert!(ModelRef::parse("p:*").ok().expect("wildcard").is_wildcard());
}

#[test]
fn names_read_back() {
    for k in [
        ProviderKind::OpenAi,
        ProviderKind::Anthropic,
        ProviderKind::Gemini,
        ProviderKind::VertexAi,
        ProviderKind::OpenResponses,
        ProviderKind::Imagen,
        ProviderKind::Images,
    ] {
        assert_eq!(ProviderKind::from_name(k.as_str()), Some(k));
    }
    for m in [DeferMode::Normal, DeferMode::Reference, DeferMode::ToolSearch, DeferMode::SystemTools] {
        assert_eq!(DeferMode::from_name(m.name()), Some(m));
    }
    assert!(matches!(Effort::optional(""), Ok(None)));
    assert!(matches!(Effort::optional("xhigh"), Ok(Some(Effort::XHigh))));
    assert!(Effort::parse("turbo").is_err());
}

fn catalog() -> Catalog {
    Catalog {
        dialects: vec![
            Dialect {
                kind: ProviderKind::OpenAi,
                env_key: "OPENAI_API_KEY".to_owned(),
                defer_modes: vec![DeferMode::Normal],
            },
            Dialect {
                kind: ProviderKind::Anthropic,
                env_key: "ANTHROPIC_API_KEY".to_owned(),
                defer_modes: vec![DeferMode::Normal, DeferMode::Reference],
            },
        ],
    }
}

fn document() -> ConfigFile {
    let mut file = ConfigFile {
        providers: StrMap::new(),
        models: StrMap::new(),
        agents: StrMap::new(),
        mcp_servers: StrMap::new(),
    };
    file.providers.insert(
        "openai".to_owned(),
        ProviderConfig { key: "${env:K}".to_owned(), ..ProviderConfig::default() },
    );
    file.models.insert("gpt".to_owned(), ModelEntry::Shorthand("openai:gpt-5".to_owned()));
    file.agents.insert(
        "default".to_owned(),
        AgentConfig {
            models: vec![ModelRef::Entry("gpt".to_owned())],
            ..AgentConfig::default()
        },
    );
    file
}

#[test]
fn a_document_loads_and_resolves() {
    let env = Env::fixed(&[("K", "sekrit")]);
    let mut warn = Vec::new();
    let cfg = Config::load(
        vec![
            ("missing".to_owned(), FileRead::Missing),
            ("broken".to_owned(), FileRead::Document(Err(ConfigError::Parse("line 3".to_owned())))),
            ("locked".to_owned(), FileRead::Unreadable("denied".to_owned())),
            ("good".to_owned(), FileRead::Document(Ok(document()))),
        ],
        &env,
        &catalog(),
        &mut warn,
    )
    .ok()
    .expect("loads");
    assert_eq!(
        warn,
        [
            "Warning: config broken: line 3 (file ignored)",
            "Warning: config locked: denied (ignored)",
        ]
    );
    let r = cfg.resolve_agent("default").expect("the agent resolves");
    assert_eq!(r.provider_name, "openai");
    assert_eq!(r.provider_type, "openai");
    assert_eq!(r.model.id, "gpt-5");
    assert_eq!(r.provider.key, "sekrit");
    assert!(r.covers(&cfg, "openai", "gpt-5"));
    assert!(!r.covers(&cfg, "openai", "gpt-4"));
    assert!(cfg.resolve_agent("nobody").is_none());
    assert_eq!(cfg.default_agent(), Some("default"));
    assert_eq!(cfg.agent_names(), ["default"]);
    match r.endpoint().api_key(&catalog(), &Env::fixed(&[("OPENAI_API_KEY", "env")])) {
        ApiKey::Env { var, key } => assert_eq!((var.as_str(), key.as_str()), ("OPENAI_API_KEY", "env")),
        _ => panic!("the variable outranks the key"),
    }
}

/// A later document replaces a whole entry: nothing of the earlier one is left, and the others stay.
#[test]
fn a_later_document_replaces_whole_entries() {
    let mut first = document();
    first.providers.insert(
        "other".to_owned(),
        ProviderConfig { url: "https://other".to_owned(), ..ProviderConfig::default() },
    );
    let mut second = ConfigFile {
        providers: StrMap::new(),
        models: StrMap::new(),
        agents: StrMap::new(),
        mcp_servers: StrMap::new(),
    };
    second.providers.insert(
        "openai".to_owned(),
        ProviderConfig { url: "https://new".to_owned(), ..ProviderConfig::default() },
    );
    let cfg = Config::load(
        vec![
            ("a".to_owned(), FileRead::Document(Ok(first))),
            ("b".to_owned(), FileRead::Document(Ok(second))),
        ],
        &Env::fixed(&[("K", "sekrit")]),
        &catalog(),
        &mut Vec::new(),
    )
    .ok()
    .expect("loads");
    let p = cfg.providers.get("openai").expect("declared twice");
    assert_eq!((p.key.as_str(), p.url.as_str()), ("", "https://new"));
    assert_eq!(cfg.providers.get("other").expect("declared once").url, "https://other");
    assert!(cfg.agents.contains_key("default"));
}

fn load_error(f: impl FnOnce(&mut ConfigFile)) -> String {
    let mut file = document();
    f(&mut file);
    let mut warn = Vec::new();
    match Config::load(
        vec![("c".to_owned(), FileRead::Document(Ok(file)))],
        &Env::default(),
        &catalog(),
        &mut warn,
    ) {
        Ok(_) => String::new(),
        Err(e) => e.message(),
    }
}

#[test]
fn each_fault_of_a_config_is_named() {
    assert_eq!(load_error(|_| ()), "");
    let with_agent = |name: &str, a: AgentConfig| {
        let name = name.to_owned();
        move |f: &mut ConfigFile| f.agents.insert(name, a)
    };
    assert!(load_error(with_agent("a", AgentConfig::default()))
        .contains("models: at least one model is required"));
    assert!(load_error(with_agent(
        "a",
        AgentConfig { models: vec![ModelRef::Entry("nope".to_owned())], ..AgentConfig::default() }
    ))
    .contains("models: unknown model \"nope\""));
    assert!(load_error(with_agent(
        "a",
        AgentConfig {
            models: vec![ModelRef::All { provider: "nope".to_owned() }],
            ..AgentConfig::default()
        }
    ))
    .contains("models: unknown provider \"nope\""));
    assert!(load_error(|f| f
        .models
        .insert("m".to_owned(), ModelEntry::Shorthand("nope:x".to_owned())))
    .contains("unknown provider \"nope\""));
    assert!(load_error(|f| f.models.insert(
        "m".to_owned(),
        ModelEntry::Full(Box::new(ModelConfig {
            provider: "openai".to_owned(),
            defer_mode: "reference".to_owned(),
            ..ModelConfig::default()
        }))
    ))
    .contains("defer_mode \"reference\" does not apply to provider type openai"));
    assert!(load_error(|f| f.mcp_servers.insert(
        "s".to_owned(),
        McpServerConfig {
            command: "x".to_owned(),
            auth: AuthMode::Oauth,
            ..McpServerConfig::default()
        }
    ))
    .starts_with("mcp_servers.s"));
}

#[test]
fn servers_are_selected_by_name() {
    let mut cfg = Config::default();
    cfg.mcp_servers.insert("a".to_owned(), stdio("a", &[]));
    cfg.mcp_servers.insert("b".to_owned(), stdio("b", &[]));
    let pick = |names: Option<Vec<&str>>| AgentConfig {
        mcp_servers: names.map(|v| v.into_iter().map(str::to_owned).collect()),
        ..AgentConfig::default()
    };
    assert_eq!(cfg.mcp_servers_for(&pick(None)).ok().expect("all").len(), 2);
    assert_eq!(cfg.mcp_servers_for(&pick(Some(vec![]))).ok().expect("none").len(), 0);
    assert!(cfg.mcp_servers_for(&pick(Some(vec!["b"]))).ok().expect("one").contains_key("b"));
    assert_eq!(
        cfg.mcp_servers_for(&pick(Some(vec!["b", "nope"]))).err().expect("unknown").message(),
        "mcp_servers: \"nope\" is not defined under the top-level mcp_servers"
    );
}

#[test]
fn files_are_found_and_named() {
    assert_eq!(config_candidates("/h"), ["/h/.iota.yaml", "/h/.iota.yml"]);
    assert_eq!(Config::find_config_file("/h", false, true), Some("/h/.iota.yml".to_owned()));
    assert_eq!(Config::find_config_file("/h", true, true), Some("/h/.iota.yaml".to_owned()));
    assert_eq!(Config::find_config_file("/h", false, false), None);
    let f = |s: &str| Some(s.to_owned());
    assert_eq!(Config::sources(f("x"), f("h"), f("c")), ["x"]);
    assert_eq!(Config::sources(None, f("h"), f("c")), ["h", "c"]);
    assert!(Config::sources(None, None, None).is_empty());
}

#[test]
fn an_old_block_splits_in_three() {
    let old = LegacyProviderEntry {
        kind: "openai".to_owned(),
        key: "k".to_owned(),
        model: "gpt-4o".to_owned(),
        system: "sys".to_owned(),
        agent: true,
        ..LegacyProviderEntry::default()
    };
    let mut warn = Vec::new();
    let s = old.split("work", &mut warn);
    assert_eq!(s.provider.kind, "openai");
    let m = s.model.expect("a model");
    assert_eq!((m.provider.as_str(), m.id.as_str()), ("work", "gpt-4o"));
    let a = s.agent.expect("an agent");
    assert!(a.workspace);
    assert_eq!(a.models.len(), 1);
    assert_eq!(a.models[0].to_text(), "work");
    assert_eq!(warn.len(), 1, "{warn:?}");
    let bare = LegacyProviderEntry { key: "k".to_owned(), ..LegacyProviderEntry::default() };
    let mut warn = Vec::new();
    let s = bare.split("p", &mut warn);
    assert!(s.model.is_none() && s.agent.is_none() && warn.is_empty());
    let mut tools: StrMap<Yaml> = StrMap::new();
    tools.insert("agent".to_owned(), Yaml::Null);
    rename_skills_set(&mut tools, "agents.a", &mut warn);
    assert!(tools.contains_key("skills") && !tools.contains_key("agent"));
    assert_eq!(warn.len(), 1);
}

/// An absent switch means ON, so only an explicit `false` silences.
#[test]
fn test_notify_field() {
    let mut cfg = FlatConfig::default();
    cfg.providers.insert(
        "quiet".to_owned(),
        LegacyProviderEntry {
            kind: "openai".to_owned(),
            notify: Some(false),
            ..LegacyProviderEntry::default()
        },
    );
    cfg.providers.insert(
        "norm".to_owned(),
        LegacyProviderEntry { kind: "openai".to_owned(), ..LegacyProviderEntry::default() },
    );
    let mut warnings = Vec::new();
    let files = vec![("c.yaml".to_owned(), FlatRead::Document(cfg))];
    let cfg = FlatConfig::load(&files, &Env::default(), &mut warnings);
    assert!(warnings.is_empty(), "unexpected warnings: {warnings:?}");

    let (kind, entry) = cfg.get("quiet");
    assert_eq!(kind, "openai");
    assert_eq!(entry.notify, Some(false), "notify: false not kept");
    assert!(!entry.notify.unwrap_or(true), "an explicit false must silence");
    let (_, entry) = cfg.get("norm");
    assert_eq!(entry.notify, None, "notify must default to on");
    assert!(entry.notify.unwrap_or(true), "an absent notify means ON");
    let (kind, entry) = cfg.get("gemini");
    assert_eq!(kind, "gemini");
    assert_eq!(entry.model, "");
}

#[test]
fn a_later_file_replaces_whole_entries() {
    let file = |key: &str, model: &str| {
        let mut f = FlatConfig::default();
        f.providers.insert(
            "p".to_owned(),
            LegacyProviderEntry {
                key: key.to_owned(),
                model: model.to_owned(),
                ..LegacyProviderEntry::default()
            },
        );
        FlatRead::Document(f)
    };
    let mut warn = Vec::new();
    let cfg = FlatConfig::load(
        &vec![
            ("home".to_owned(), file("${env:K}", "m1")),
            ("bad".to_owned(), FlatRead::Unparsed("line 1".to_owned())),
            ("gone".to_owned(), FlatRead::Missing),
            ("locked".to_owned(), FlatRead::Unreadable("denied".to_owned())),
            ("cwd".to_owned(), file("${env:K}", "")),
        ],
        &Env::fixed(&[("K", "v")]),
        &mut warn,
    );
    let (_, p) = cfg.get("p");
    assert_eq!((p.key.as_str(), p.model.as_str()), ("v", ""));
    assert_eq!(
        warn,
        [
            "Warning: config bad: line 1 (file ignored)",
            "Warning: config locked: denied (ignored)",
        ]
    );
    assert!(matches!(p.effort(), Ok(None)));
    assert!(p.image_gen_params().aspect_ratio.is_none());
    assert_eq!(p.resolve_system(Err("unused".to_owned())).ok().expect("no file"), "");
    let filed = LegacyProviderEntry {
        system_file: "/s.md".to_owned(),
        ..LegacyProviderEntry::default()
    };
    assert_eq!(
        filed.resolve_system(Err("No such file".to_owned())).err().expect("unreadable").message(),
        "system_file: open /s.md: No such file"
    );
}

fn signed_in() -> McpServerConfig {
    let mut env = StrMap::new();
    env.insert("A".to_owned(), "1: # ' \"".to_owned());
    McpServerConfig {
        command: "true".to_owned(),
        args: vec!["- x".to_owned(), "".to_owned(), " ~".to_owned()],
        url: "https://h/#a: b".to_owned(),
        env,
        auth: AuthMode::Oauth,
        client_id: "0123".to_owned(),
        client_secret: "null".to_owned(),
        ..McpServerConfig::default()
    }
}

/// What is written loads again, the keys of a sign-in with it, and reads as the same tree.
#[test]
fn a_written_block_loads_again() {
    let long = "n".repeat(200);
    let s = servers(vec![("x", signed_in()), (&long, signed_in()), ("y", McpServerConfig::default())]);
    let text = rewrite_mcp_servers("", &s).ok().expect("written");
    let doc = check_document(text.as_bytes()).ok().expect("no key is refused");
    assert_eq!(print(&doc).expect("printed"), text);
    let entry = doc.field("mcp_servers").and_then(|m| m.field("x")).expect("the entry");
    assert_eq!(entry.field("auth").and_then(|a| a.as_text()).expect("auth"), "oauth");
    assert_eq!(entry.field("client_id").and_then(|a| a.as_text()).expect("id"), "0123");
    assert_eq!(entry.field("client_secret").and_then(|a| a.as_text()).expect("secret"), "null");
    assert_eq!(entry.field("command").and_then(|a| a.as_text()).expect("command"), "true");
}

/// Whatever characters a text holds, but for line breaks, it is read back as it was written.
#[test]
fn odd_characters_are_read_back() {
    let all: Vec<char> = ('\0'..='\u{17f}')
        .chain('\u{2000}'..='\u{20ff}')
        .chain('\u{d7f0}'..='\u{e00f}')
        .chain('\u{fe00}'..='\u{1000f}')
        .chain(['\u{1f600}', '\u{1fffe}', '\u{10ffff}'])
        .filter(|c| !['\n', '\u{2028}', '\u{2029}'].contains(c))
        .collect();
    let mut args: Vec<String> = Vec::new();
    for c in &all {
        for around in ["", "a", " ", ":", "- ", "'", "\"", "0", "#", "~"] {
            args.push(format!("{c}{around}"));
            args.push(format!("{around}{c}"));
            args.push(format!("{around}{c}{around}"));
        }
    }
    let mut headers = StrMap::new();
    for c in &all {
        headers.insert(format!("{c}"), format!("{c}: {c}"));
        headers.insert(c.to_string().repeat(50), String::new());
    }
    let odd = McpServerConfig { args: args.clone(), headers, ..McpServerConfig::default() };
    let text = rewrite_mcp_servers("", &servers(vec![("\u{7f}\t", odd)])).ok().expect("written");
    let doc = check_document(text.as_bytes()).ok().expect("it loads");
    let entry = doc.field("mcp_servers").and_then(|m| m.field("\u{7f}\t")).expect("the entry");
    match entry.field("args").expect("args") {
        Yaml::List(v) => {
            assert_eq!(v.len(), args.len());
            for (y, a) in v.iter().zip(&args) {
                assert_eq!(y.as_text(), Some(a), "{a:?}");
            }
        },
        _ => panic!("a list was written"),
    }
    let read = entry.field("headers").expect("headers");
    for c in &all {
        let value = read.field(&c.to_string()).and_then(|v| v.as_text()).expect("a header");
        assert_eq!(*value, format!("{c}: {c}"));
        assert!(read.field(&c.to_string().repeat(50)).is_some(), "{c:?}");
    }
    assert_eq!(print(&doc).expect("printed"), text);
}

/// Of two rewrites the later stands, whatever characters but newlines the texts hold.
#[test]
fn a_later_rewrite_stands_alone() {
    let odd = McpServerConfig {
        command: "a\rb".to_owned(),
        args: vec!["\u{85}".to_owned(), "\u{2028}x".to_owned(), "\u{a0}".to_owned(), "\t".to_owned()],
        ..McpServerConfig::default()
    };
    let first = servers(vec![("odd", odd), ("x", signed_in())]);
    let second = servers(vec![("z", signed_in())]);
    for text in ["", "agents:\n  a: {}", "mcp_servers:\n  old: {}\n\nmodels: {}\n", "# only a comment\n"] {
        let once = rewrite_mcp_servers(text, &first).ok().expect("written");
        let twice = rewrite_mcp_servers(&once, &second).ok().expect("written");
        assert_eq!(twice, rewrite_mcp_servers(text, &second).ok().expect("written"), "{text:?}");
        let block = locate_block(&once, "mcp_servers").expect("the block is found");
        let alone = rewrite_mcp_servers("", &first).ok().expect("written");
        assert_eq!(&once[block], alone);
        let lines: Vec<&str> = alone.split_terminator('\n').collect();
        assert_eq!(lines[0], "mcp_servers:");
        assert!(lines[1..].iter().all(|l| l.starts_with(' ') && !l.trim().is_empty()), "{alone:?}");
    }
}

#[test]
fn truth_is_spelled_in_many_ways() {
    assert_eq!(spelled_bool("yes"), Some(true));
    assert_eq!(spelled_bool("Off"), Some(false));
    assert_eq!(spelled_bool("TRUE"), Some(true));
    assert_eq!(spelled_bool("yEs"), None);
    assert_eq!(spelled_bool(""), None);
}

/// Every field of a server tells in what is written of it.
#[test]
fn different_servers_are_written_differently() {
    let write = |c: McpServerConfig| rewrite_mcp_servers("", &servers(vec![("x", c)])).ok().expect("written");
    let base = write(signed_in());
    assert_ne!(base, write(McpServerConfig { auth: AuthMode::Unset, ..signed_in() }));
    assert_ne!(base, write(McpServerConfig { client_id: String::new(), ..signed_in() }));
    assert_ne!(base, write(McpServerConfig { defer: Some(String::new()), ..signed_in() }));
    assert_ne!(base, write(McpServerConfig { args: vec!["- x".to_owned()], ..signed_in() }));
    assert_eq!(base, write(signed_in()));
}
