//! The commands on MCP servers.

use iota::cmd::args::{McpAddCmd, McpAuthArg, McpListCmd, McpListScope, McpScope};
use iota::cmd::error::{ArgsError, CliError, SetupError};
use iota::cmd::io::Streams;
use iota::cmd::mcp_cmd::{
    added_text, check_name, describe, entry_of, finish_add, finish_remove, list_files, prepare_add,
    remove_files, scope_file, source_files, Tiers,
};
use iota::cmd::mcp_view::{
    auth_label, choose_holder, declared_servers, get_server, list_json, list_table, login_client,
    logout_text, oauth_server, probe_label, refused_login, removed_text, run_list, waiting_line, Login,
    OauthRefusal,
    ProbeStatus,
};
use iota::config::edit::FileServers;
use iota::config::server::{AuthMode, McpServerConfig};
use iota::map::StrMap;

fn text(s: &str) -> String {
    s.to_owned()
}

fn list(v: &[&str]) -> Vec<String> {
    v.iter().map(|s| text(s)).collect()
}

fn add(name: &str) -> McpAddCmd {
    McpAddCmd {
        name: text(name),
        scope: None,
        env: Vec::new(),
        defer: None,
        url: None,
        headers: Vec::new(),
        auth: None,
        client_id: None,
        client_secret_env: None,
        command: Vec::new(),
    }
}

fn tiers() -> Tiers {
    Tiers {
        home: Some(text("/h")),
        cwd: Some(text("/c")),
        home_file: Some(text("/h/.iota.yml")),
        cwd_file: None,
        cwd_error: text("gone"),
    }
}

#[test]
fn a_command_entry_takes_its_words() {
    let mut a = add("fs");
    a.command = list(&["npx", "-y", "server-fs"]);
    a.env = list(&["LOG= info", "A=1", "A=2=3"]);
    a.defer = Some(text("files"));
    let e = entry_of(&a).ok().expect("an entry");
    assert_eq!(e.command, "npx");
    assert_eq!(e.args, ["-y", "server-fs"]);
    assert_eq!(e.env.get("LOG").map(String::as_str), Some(" info"));
    assert_eq!(e.env.get("A").map(String::as_str), Some("2=3"));
    assert_eq!(e.defer.as_deref(), Some("files"));
    assert_eq!(describe(&e), "stdio: npx -y server-fs");
}

#[test]
fn a_url_entry_takes_its_headers() {
    let mut a = add("gh");
    a.url = Some(text("https://gh/mcp"));
    a.headers = list(&["Authorization:  Bearer x ", "A: b:c"]);
    a.auth = Some(McpAuthArg::Oauth);
    a.client_id = Some(text("id"));
    a.client_secret_env = Some(text("GH_SECRET"));
    let e = entry_of(&a).ok().expect("an entry");
    assert_eq!(e.headers.get("Authorization").map(String::as_str), Some("Bearer x"));
    assert_eq!(e.headers.get("A").map(String::as_str), Some("b:c"));
    assert_eq!(e.auth, AuthMode::Oauth);
    assert_eq!(e.client_id, "id");
    assert_eq!(e.client_secret, "${env:GH_SECRET}");
    assert_eq!(describe(&e), "http: https://gh/mcp");
}

fn refusal(f: impl FnOnce(&mut McpAddCmd)) -> String {
    let mut a = add("s");
    f(&mut a);
    match entry_of(&a) {
        Ok(_) => String::new(),
        Err(e) => e.message(),
    }
}

#[test]
fn each_misuse_of_a_flag_is_named() {
    let url = || Some(text("https://x"));
    assert_eq!(refusal(|_| ()), "mcp add: a server needs a command after `--`, or --url");
    assert_eq!(
        refusal(|a| {
            a.url = url();
            a.command = list(&["x"]);
        }),
        "mcp add: give a command after `--` or --url, not both"
    );
    assert!(refusal(|a| a.url = Some(text("ftp://x"))).contains("\"ftp://x\""));
    assert!(matches!(
        entry_of(&McpAddCmd { url: url(), env: list(&["A=b"]), ..add("s") }),
        Err(ArgsError::McpAddFlag { flag: "-e/--env", form: "command" })
    ));
    assert!(refusal(|a| {
        a.url = url();
        a.headers = list(&["ok: 1", "nocolon"]);
    })
    .contains("\"nocolon\""));
    assert!(refusal(|a| {
        a.url = url();
        a.headers = list(&[": v"]);
    })
    .contains("Name: value"));
    assert!(matches!(
        entry_of(&McpAddCmd { url: url(), client_id: Some(text("i")), ..add("s") }),
        Err(ArgsError::McpAddFlag { flag: "--client-id", form: "--auth oauth" })
    ));
    for (id, var) in [(None, "V"), (Some("i"), "a-b"), (Some("i"), "")] {
        assert!(matches!(
            entry_of(&McpAddCmd {
                url: url(),
                auth: Some(McpAuthArg::Oauth),
                client_id: id.map(text),
                client_secret_env: Some(text(var)),
                ..add("s")
            }),
            Err(ArgsError::McpClientSecretEnv(_))
        ));
    }
    let command = || list(&["x"]);
    assert!(matches!(
        entry_of(&McpAddCmd { command: command(), headers: list(&["A: b"]), ..add("s") }),
        Err(ArgsError::McpAddFlag { flag: "--header", form: "--url" })
    ));
    assert!(matches!(
        entry_of(&McpAddCmd { command: command(), auth: Some(McpAuthArg::Off), ..add("s") }),
        Err(ArgsError::McpAddFlag { flag: "--auth", form: "--url" })
    ));
    assert!(matches!(
        entry_of(&McpAddCmd { command: command(), client_id: Some(text("i")), ..add("s") }),
        Err(ArgsError::McpAddFlag { flag: "--client-id", form: "--url" })
    ));
    for bad in ["noequals", "=v", " =v"] {
        assert!(matches!(
            entry_of(&McpAddCmd { command: command(), env: list(&[bad]), ..add("s") }),
            Err(ArgsError::McpBadEnv(e)) if e == bad
        ));
    }
    assert!(check_name("a-b_c.D9").is_ok());
    assert!(check_name("").is_err());
    assert!(check_name("a b").is_err());
    assert!(check_name("é").is_err());
}

#[test]
fn a_shared_file_carries_no_secret() {
    let mut a = add("gh");
    a.url = Some(text("https://gh/mcp"));
    a.headers = list(&["Authorization: Bearer x"]);
    a.scope = Some(McpScope::Project);
    assert!(matches!(
        prepare_add(&a, &None, &tiers()),
        Err(CliError::Args(ArgsError::McpProjectSecret(at))) if at == "headers.Authorization"
    ));
    a.headers = list(&["Authorization: Bearer ${env:T}"]);
    let (_, file) = prepare_add(&a, &None, &tiers()).ok().expect("a reference is fine");
    assert_eq!(file, "/c/.iota.yaml");
    a.headers = list(&["Authorization: Bearer x"]);
    a.scope = Some(McpScope::User);
    let (_, file) = prepare_add(&a, &None, &tiers()).ok().expect("one's own file");
    assert_eq!(file, "/h/.iota.yml");
    a.name = text("no good");
    assert!(matches!(prepare_add(&a, &None, &tiers()), Err(CliError::Args(ArgsError::McpName(_)))));
}

#[test]
fn scopes_name_files() {
    let none = Tiers {
        home: None,
        cwd: None,
        home_file: None,
        cwd_file: None,
        cwd_error: text("gone"),
    };
    assert!(matches!(scope_file(McpScope::User, &none), Err(SetupError::NoHome)));
    assert!(matches!(scope_file(McpScope::Project, &none), Err(SetupError::Cwd(e)) if e == "gone"));
    let both = Tiers { cwd_file: Some(text("/c/.iota.yaml")), ..tiers() };
    assert_eq!(source_files(&None, None, &both), ["/h/.iota.yml", "/c/.iota.yaml"]);
    assert_eq!(source_files(&None, Some(McpScope::Project), &both), ["/c/.iota.yaml"]);
    assert_eq!(source_files(&Some(text("f")), None, &both), ["f"]);
    let f = Some(text("f"));
    assert!(matches!(
        list_files(&f, Some(McpListScope::All), &both),
        Err(CliError::Args(ArgsError::McpScopeWithConfig))
    ));
    assert_eq!(list_files(&None, Some(McpListScope::User), &both).ok().expect("files").len(), 1);
    assert_eq!(list_files(&None, Some(McpListScope::All), &both).ok().expect("files").len(), 2);
    assert!(remove_files(&f, Some(McpScope::User), &both).is_err());
}

fn server(command: &str) -> McpServerConfig {
    McpServerConfig { command: text(command), ..McpServerConfig::default() }
}

fn file(body: &str, names: &[(&str, &str)]) -> FileServers {
    let mut servers = StrMap::new();
    for (n, c) in names {
        servers.insert(text(n), server(c));
    }
    FileServers { text: text(body), servers }
}

#[test]
fn an_addition_writes_one_more_entry() {
    let out = finish_add("s", &server("srv"), "/f", file("a: 1\n", &[])).ok().expect("added");
    assert_eq!(out, "a: 1\n\nmcp_servers:\n  s:\n    command: srv\n");
    let r = finish_add("s", &server("srv"), "/f", file("", &[("s", "old")]));
    assert_eq!(
        r.err().expect("taken").message(""),
        "mcp: a server named \"s\" already exists in /f (remove it first, or pick another name)"
    );
    assert_eq!(
        added_text("s", &server("srv"), "/f", &None),
        "Added s (stdio: srv) to /f\n"
    );
    let mut oauth = server("");
    oauth.url = text("https://x");
    oauth.auth = AuthMode::Oauth;
    assert_eq!(
        added_text("s", &oauth, "/f", &Some(list(&["other"]))),
        "Added s (http: https://x) to /f\nNext: iota mcp login s\nagent default lists its servers explicitly; add s there to use it\n"
    );
}

/// Adding a server and removing it again gives the file back.
#[test]
fn a_removal_undoes_an_addition() {
    let before = "a: 1\n";
    let added = finish_add("s", &server("srv"), "/f", file(before, &[])).ok().expect("added");
    let removed = finish_remove("s", file(&added, &[("s", "srv")])).ok().expect("removed");
    assert_eq!(removed, before);
    assert_eq!(removed_text("s", "/f"), "Removed s from /f\n");
}

fn two_files() -> Vec<(String, FileServers)> {
    vec![
        (text("/h"), file("", &[("both", "h"), ("home", "x")])),
        (text("/c"), file("", &[("both", "c")])),
    ]
}

#[test]
fn a_later_file_replaces_an_entry() {
    let d = declared_servers(&two_files());
    let seen: Vec<(&str, &str)> = d.iter().map(|d| (d.name.as_str(), d.file.as_str())).collect();
    assert_eq!(seen, [("both", "/c"), ("home", "/h")]);
    assert_eq!(d[0].entry.command, "c");
}

#[test]
fn a_removal_needs_one_holder() {
    let t = tiers();
    assert_eq!(choose_holder("home", None, &two_files(), &t).ok(), Some(0));
    let r = choose_holder("both", None, &two_files(), &t);
    assert!(matches!(r, Err(SetupError::McpAmbiguous { files, .. }) if files == ["/h", "/c"]));
    let r = choose_holder("nope", None, &two_files(), &t);
    assert!(matches!(r, Err(SetupError::McpUnknown { servers, .. }) if servers == ["both", "home"]));
    let r = choose_holder("nope", Some(McpScope::User), &two_files(), &t);
    assert!(matches!(r, Err(SetupError::McpNotInScope { file, .. }) if file == "/h/.iota.yml"));
}

#[test]
fn the_table_lines_up() {
    let d = declared_servers(&two_files());
    let probes = Some(vec![
        ProbeStatus { connected: true, tools: list(&["t"]), tool_count: 1, error: None },
        ProbeStatus {
            connected: false,
            tools: Vec::new(),
            tool_count: 0,
            error: Some(text("refused\ndetails")),
        },
    ]);
    let states = list(&["", ""]);
    assert_eq!(
        list_table(&d, &states, 4, 2, &probes),
        "MCP servers:\n  both  stdio  /c  [auth: none]  connected (1 tools)\n  home  stdio  /h  [auth: none]  failed: refused\n"
    );
    assert!(list_table(&Vec::new(), &Vec::new(), 0, 0, &None).starts_with("No MCP servers configured."));
    let json = list_json(&d, &states, &probes).ok().expect("json");
    let v: serde_json::Value = serde_json::from_str(&json).expect("one value");
    assert_eq!(v[0]["name"], "both");
    assert_eq!(v[0]["transport"], "stdio");
    assert_eq!(v[0]["command"], "c");
    assert_eq!(v[0]["login"], serde_json::Value::Null);
    assert_eq!(v[0]["probe"]["tools"][0], "t");
    assert_eq!(v[1]["probe"]["state"], "failed");
    assert_eq!(v[1]["probe"]["error"], "refused\ndetails");
    assert!(json.starts_with("[\n  {\n    \"args\": [],\n"), "{json}");
    assert!(json.ends_with("]\n"));
}

#[test]
fn one_server_is_shown_field_by_field() {
    let mut e = server("");
    e.url = text("https://x");
    e.headers.insert(text("A"), text("b"));
    e.defer = Some(text("sum"));
    e.auth = AuthMode::Oauth;
    e.client_id = text("id");
    let mut servers = StrMap::new();
    servers.insert(text("gh"), e);
    let d = declared_servers(&vec![(text("/f"), FileServers { text: String::new(), servers })]);
    let login = Login { state: text("logged in"), path: Some(text("/t")) };
    assert_eq!(
        get_server("gh", &d, &login).ok().expect("known"),
        "gh:\n  file: /f\n  transport: http\n  url: https://x\n  headers:\n    A: b\n  defer: sum\n  client_id: id\n  auth: oauth (logged in; /t)\n"
    );
    assert!(get_server("nope", &d, &login).is_err());
    assert_eq!(auth_label(&d[0].entry, "logged in"), "oauth: logged in");
    assert!(matches!(oauth_server("gh", &d), Ok(0)));
    assert!(matches!(oauth_server("nope", &d), Err(OauthRefusal::Unknown(_))));
    let plain = declared_servers(&two_files());
    assert!(matches!(oauth_server("home", &plain), Err(OauthRefusal::NotOauth(n)) if n == "home"));
    let mut args = server("x");
    args.args = list(&["-a", "b"]);
    let mut servers = StrMap::new();
    servers.insert(text("s"), args);
    let d = declared_servers(&vec![(text("/f"), FileServers { text: String::new(), servers })]);
    assert_eq!(
        get_server("s", &d, &login).ok().expect("known"),
        "s:\n  file: /f\n  transport: stdio\n  command: x\n  args:\n    - -a\n    - b\n  auth: none\n"
    );
}

#[test]
fn a_login_uses_one_client() {
    let s = |x: &str| Some(text(x));
    assert_eq!(login_client(&s("i"), &text("i"), &text("sec")), (s("i"), s("sec")));
    assert_eq!(login_client(&s("other"), &text("i"), &text("sec")), (s("other"), None));
    assert_eq!(login_client(&None, &text("i"), &text("")), (s("i"), None));
    assert_eq!(login_client(&None, &text(""), &text("")), (None, None));
    assert!(waiting_line(true).ends_with("paste the redirect URL here:"));
    assert!(waiting_line(false).ends_with("(5m)…"));
    assert_eq!(logout_text("gh", true, "/t"), "Logged out of gh (forgot /t)\n");
    assert_eq!(logout_text("gh", false, "/t"), "Not logged in to gh (nothing to forget)\n");
    let p = ProbeStatus { connected: true, tools: Vec::new(), tool_count: 12, error: None };
    assert_eq!(probe_label(&p), "connected (12 tools)");
}

/// The listing is JSON or a table, and shows its probes where they were asked for.
#[test]
fn a_listing_is_shown_as_it_was_asked_for() {
    let found = || {
        vec![
            ProbeStatus { connected: true, tools: list(&["t"]), tool_count: 1, error: None },
            ProbeStatus { connected: true, tools: Vec::new(), tool_count: 0, error: None },
        ]
    };
    let shown = |json, probe| {
        let mut io = Streams::default();
        let cmd = McpListCmd { scope: None, json, probe };
        let states = list(&["", ""]);
        let r = run_list(&cmd, &two_files(), &states, found(), &vec![4, 4], &vec![2, 2], &mut io);
        assert!(r.is_ok());
        assert_eq!(io.stderr, "");
        io.stdout
    };
    assert_eq!(
        shown(false, false),
        "MCP servers:\n  both  stdio  /c  [auth: none]\n  home  stdio  /h  [auth: none]\n"
    );
    assert!(shown(false, true).contains("connected (1 tools)"));
    let v: serde_json::Value = serde_json::from_str(&shown(true, false)).expect("one value");
    assert_eq!(v[1]["name"], "home");
    assert_eq!(v[0].get("probe"), None);
    let v: serde_json::Value = serde_json::from_str(&shown(true, true)).expect("one value");
    assert_eq!(v[0]["probe"]["state"], "connected");
    assert_eq!(
        refused_login(OauthRefusal::NotOauth(text("x"))).message(""),
        "mcp: \"x\" does not sign in with OAuth"
    );
}
