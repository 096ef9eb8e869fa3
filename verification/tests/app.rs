//! Directories, the environment, diagnostics, temporary names, and color.

use iota::app::diag::install_from_env;
use iota::app::env::{expand, Env};
use iota::app::fs::{temp_name, temp_name_with};
use iota::app::{
    cache_dir, file_name, join_path, temp_dir, user_home, HostDirs, Platform, CONFIG_BASE,
    CONFIG_EXTS, DOT_DIR, NAME,
};
use iota::color::{current, enabled, init, ColorMode};

#[test]
fn test_home() {
    let dirs = HostDirs { home: Some("/tmp/iota-test-home".to_owned()), ..HostDirs::default() };
    let got = dirs.app_home().expect("home is set");
    assert_eq!(file_name(&got), Some(".iota".to_owned()), "Home() = {got:?}, want …/.iota");
    assert_eq!(got, "/tmp/iota-test-home/.iota");
    assert_eq!(dirs.images_dir(), Some("/tmp/iota-test-home/.iota/images".to_owned()));
    // Without a home there is no app home.
    let none = HostDirs::default();
    assert!(none.app_home().is_none());
    assert!(none.images_dir().is_none());
    // Identity constants.
    assert_eq!(NAME, "iota");
    assert_eq!(DOT_DIR, ".iota");
    assert_eq!(CONFIG_BASE, ".iota");
    assert_eq!(CONFIG_EXTS, [".yaml", ".yml"]);
}

#[test]
fn cache_dir_rules_per_os() {
    let home = Some("/h".to_owned());
    let xdg = || Some("/x".to_owned());
    assert_eq!(cache_dir(Platform::MacOs, &home, xdg()), Some("/h/Library/Caches".to_owned()));
    assert_eq!(cache_dir(Platform::MacOs, &None, xdg()), None);
    assert_eq!(cache_dir(Platform::Unix, &home, xdg()), Some("/x".to_owned()));
    assert_eq!(cache_dir(Platform::Unix, &None, xdg()), Some("/x".to_owned()));
    assert_eq!(
        cache_dir(Platform::Unix, &home, Some("rel".to_owned())),
        Some("/h/.cache".to_owned())
    );
    assert_eq!(cache_dir(Platform::Unix, &home, None), Some("/h/.cache".to_owned()));
    assert_eq!(cache_dir(Platform::Unix, &None, None), None);
    assert_eq!(cache_dir(Platform::Other, &home, None), None);
    let dirs = HostDirs::resolve(Platform::Unix, home.clone(), None, None, None, "/tmp");
    assert_eq!(dirs.cache, cache_dir(Platform::Unix, &home, None));
    assert_eq!(dirs.temp, temp_dir(Platform::Unix, None, "/tmp"));
    assert!(!dirs.temp.is_empty());
    assert_eq!(user_home(Some(String::new())), None);
}

fn env() -> Env {
    Env::fixed(&[("VARS_TEST_TOKEN", "sekrit"), ("NESTED", "${cwd}")]).with_dirs(HostDirs {
        cwd: Some("/wd".to_owned()),
        home: Some("/home/u".to_owned()),
        ..HostDirs::default()
    })
}

#[test]
fn test_expand() {
    let r = env();
    let sep = "/".to_owned();
    let cases: Vec<(&str, String)> = vec![
        ("", String::new()),
        ("plain", "plain".to_owned()),
        ("${userHome}/x", "/home/u/x".to_owned()),
        ("${appHome}/sys.md", format!("/home/u{sep}.iota/sys.md")),
        ("${cwd}", "/wd".to_owned()),
        ("${workspaceFolder}", "/wd".to_owned()),
        ("${env:VARS_TEST_TOKEN}", "sekrit".to_owned()),
        ("${env:VARS_TEST_UNSET}", String::new()),
        ("${unknownVar}", "${unknownVar}".to_owned()),
        ("a${/}b", format!("a{sep}b")),
        ("${userHome}${pathSeparator}deep", format!("/home/u{sep}deep")),
        ("${}", "${}".to_owned()),
        ("${", "${".to_owned()),
        ("$${cwd}", "$/wd".to_owned()),
        ("${env:NESTED}", "${cwd}".to_owned()),
        ("${CWD}", "${CWD}".to_owned()),
        ("x${cwd}y${unknown}z", "x/wdy${unknown}z".to_owned()),
    ];
    for (input, want) in cases {
        assert_eq!(expand(input, &r), want, "Expand({input:?})");
    }
    assert!(expand("${appHome}", &r).ends_with(".iota"), "appHome must end in .iota");

    // A failed lookup leaves the reference untouched; env: is always substituted.
    let bare = Env::default();
    assert_eq!(expand("${userHome}", &bare), "${userHome}");
    assert_eq!(expand("${appHome}", &bare), "${appHome}");
    assert_eq!(expand("${cwd}", &bare), "${cwd}");
    assert_eq!(expand("${env:X}", &bare), "");
    assert_eq!(expand("${/}", &bare), sep);
}

/// An empty value reads as unset.
#[test]
fn var_reads_empty_as_unset_from_every_source() {
    let fixed = Env::fixed(&[("K", "v"), ("EMPTY", "")]);
    assert_eq!(fixed.var("K"), Some("v".to_owned()));
    assert_eq!(fixed.var("EMPTY"), None);
    assert_eq!(fixed.var("MISSING"), None);
    assert!(fixed.cwd().is_none() && fixed.home().is_none());
    let copy = fixed.copy();
    assert_eq!(copy.var("K"), fixed.var("K"));
}

#[test]
fn paths_join_and_name() {
    assert_eq!(join_path("/a", "b"), "/a/b");
    assert_eq!(join_path("/a/", "b"), "/a/b");
    assert_eq!(join_path("/a", "/b"), "/b");
    assert_eq!(join_path("", "b"), "b");
    assert_eq!(file_name("/a/b.txt"), Some("b.txt".to_owned()));
    assert_eq!(file_name("foo.txt/."), Some("foo.txt".to_owned()));
    assert_eq!(file_name("/a/b/"), Some("b".to_owned()));
    assert_eq!(file_name("/a/.."), None);
    assert_eq!(file_name("/"), None);
}

/// An unset variable installs nothing and says nothing.
#[test]
fn unset_is_silent() {
    let mut warnings = Vec::new();
    install_from_env(&Env::default(), |_: &String| panic!("nothing is installed"), &mut warnings);
    assert!(warnings.is_empty(), "{warnings:?}");
}

/// A path that cannot be opened warns once — with the variable, the path and the reason — and returns.
#[test]
fn an_unopenable_path_warns_and_continues() {
    let env = Env::fixed(&[("IOTA_LOG", "/no-such-dir/iota.log")]);
    let mut warnings = Vec::new();
    install_from_env(&env, |_: &String| Err("No such file".to_owned()), &mut warnings);
    assert_eq!(warnings.len(), 1, "{warnings:?}");
    assert_eq!(warnings[0], "Warning: IOTA_LOG: cannot log to /no-such-dir/iota.log: No such file");
    let mut seen = String::new();
    let mut warnings = Vec::new();
    install_from_env(
        &env,
        |p: &String| {
            seen = p.clone();
            Ok(())
        },
        &mut warnings,
    );
    assert_eq!(seen, "/no-such-dir/iota.log");
    assert!(warnings.is_empty());
}

#[test]
fn temporary_names_are_hidden_and_differ() {
    assert_eq!(temp_name_with("/d/f.yaml", 42, 0xbeef), ".f.yaml.42.0000beef.tmp");
    assert_eq!(temp_name_with("/", 1, 0xffff_ffff), "..1.ffffffff.tmp");
    let a = temp_name("/d/f.yaml", 7);
    let b = temp_name("/d/f.yaml", 7);
    let c = temp_name("/d/f.yaml", 7);
    for n in [&a, &b, &c] {
        assert!(n.starts_with(".f.yaml.7."), "{n}");
        assert!(n.ends_with(".tmp"), "{n}");
        assert_eq!(n.len(), ".f.yaml.7.".len() + 8 + ".tmp".len());
    }
    assert!(a != b || b != c, "{a}");
}

#[test]
fn a_terminal_with_a_clean_environment_paints() {
    assert_eq!(ColorMode::detect(&Env::fixed(&[]), true), ColorMode::On);
    assert_eq!(ColorMode::detect(&Env::fixed(&[("TERM", "xterm-256color")]), true), ColorMode::On);
}

#[test]
fn no_color_disables_whatever_its_value() {
    for value in ["1", "0", "false", "no", "yes", "anything"] {
        assert_eq!(
            ColorMode::detect(&Env::fixed(&[("NO_COLOR", value)]), true),
            ColorMode::Off,
            "NO_COLOR={value}"
        );
    }
}

#[test]
fn an_empty_no_color_is_unset() {
    assert_eq!(ColorMode::detect(&Env::fixed(&[("NO_COLOR", "")]), true), ColorMode::On);
}

#[test]
fn a_dumb_terminal_gets_no_escapes() {
    assert_eq!(ColorMode::detect(&Env::fixed(&[("TERM", "dumb")]), true), ColorMode::Off);
    assert_eq!(ColorMode::detect(&Env::fixed(&[("TERM", "dumb-emacs-ansi")]), true), ColorMode::On);
}

#[test]
fn a_pipe_gets_no_escapes() {
    assert_eq!(ColorMode::detect(&Env::fixed(&[]), false), ColorMode::Off);
}

#[test]
fn the_unset_default_paints() {
    let undecided: Option<ColorMode> = None;
    assert!(enabled(&undecided));
    assert_eq!(current(&undecided), ColorMode::On);
}

#[test]
fn the_first_decision_stands() {
    let mut decided: Option<ColorMode> = None;
    assert_eq!(init(&mut decided, ColorMode::Off), ColorMode::Off);
    assert_eq!(init(&mut decided, ColorMode::On), ColorMode::Off);
    assert!(!enabled(&decided));
}
