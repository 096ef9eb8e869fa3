//! The project overlay, the skills and the built-in prompt.

use iota::agents::harness::{compose, platform, today, ConfigFiles, Environment, HARNESS_CAP};
use iota::agents::skills::{
    discover_skills, parse_skill, skill_body, skill_in, skill_roots, skill_source_tag, skills_catalog,
    split_frontmatter, split_text, valid_skill_name, xml_escape, Skill, SkillFile, SKILLS_CATALOG_CAP,
    SKILLS_CATALOG_INSTRUCTION,
};
use iota::agents::{
    agents_dirs, ancestors, compose_send_history, load_agents_chain, probe, project_root, read_agents_chain, FileProbe,
    Findings, Overlay, Sent, AGENTS_CHAIN_CAP, AGENTS_TRUNCATION_MARK,
};
use iota::app::paths::{components, is_under, parent};
use iota::message::{Message, Role};
use iota::yaml::Yaml;

/// A Homebrew install on a Mac: the paths are as long as they get for most users.
fn env() -> Environment {
    Environment {
        project_root: "/Users/someone/Work/project".to_owned(),
        platform: "macos (aarch64)".to_owned(),
        shell: "bash".to_owned(),
        date: "2026-09-20".to_owned(),
        exe: Some("/opt/homebrew/Cellar/iota/0.3.2/bin/iota".to_owned()),
        configs: ConfigFiles::Tiers {
            user: Some("/Users/someone/.iota.yaml".to_owned()),
            project: Some("/Users/someone/Work/project/.iota.yaml".to_owned()),
        },
    }
}

fn sets(names: &[&str]) -> Vec<String> {
    names.iter().map(|s| (*s).to_owned()).collect()
}

/// No toolset, no harness.
#[test]
fn no_tools_is_empty() {
    assert_eq!(compose(&env(), &sets(&[])), "");
}

/// Tools without the shell set: identity and environment, no `<iota_cli>`.
#[test]
fn code_without_shell_has_no_cli_block() {
    let text = compose(&env(), &sets(&["code"]));
    assert!(text.starts_with("You run inside iota"), "{text}");
    assert!(text.contains("<environment>\n"), "{text}");
    assert!(text.ends_with("</environment>"), "{text}");
    assert!(!text.contains("<iota_cli>"), "{text}");
}

/// The shell set brings the command-line block, after the environment.
#[test]
fn shell_brings_the_cli_block() {
    let text = compose(&env(), &sets(&["code", "shell"]));
    let env_at = text.find("<environment>").expect("environment");
    let cli_at = text.find("<iota_cli>").expect("iota_cli");
    assert!(env_at < cli_at, "the environment precedes the CLI block");
    assert!(text.ends_with("</iota_cli>"), "{text}");
    for verb in [
        "iota mcp add <name> --url <url>",
        "iota mcp add <name> -- <command> [args]",
        "iota mcp list [--probe]",
        "iota config check | path | init",
        "iota list agents | models | providers",
        "iota run <agent> -m \"<task>\"",
        "iota <verb> --help",
    ] {
        assert!(text.contains(verb), "missing {verb:?} in {text}");
    }
    assert!(text.contains("is not retried"), "{text}");
    assert!(text.contains("OUTSIDE the shell sandbox"), "{text}");
    assert!(text.contains("stopped by the sandbox"), "{text}");
}

/// The whole paragraph, environment included, stays under the ceiling.
#[test]
fn the_harness_fits_the_cap() {
    let text = compose(&env(), &sets(&["code", "shell"]));
    assert!(text.len() <= HARNESS_CAP, "harness is {} bytes, cap {HARNESS_CAP}", text.len());
}

/// Every environment fact is one line; a missing config file is spelled `(absent)`, and a file given by name
/// collapses the two tiers into one line.
#[test]
fn environment_lines_name_absence() {
    let text = compose(&env(), &sets(&["code"]));
    for line in [
        "project root: /Users/someone/Work/project",
        "platform: macos (aarch64)",
        "shell: bash",
        "date: 2026-09-20",
        "iota binary: /opt/homebrew/Cellar/iota/0.3.2/bin/iota",
        "user config: /Users/someone/.iota.yaml",
        "project config: /Users/someone/Work/project/.iota.yaml",
    ] {
        assert!(text.contains(&format!("\n{line}\n")), "missing {line:?} in {text}");
    }
    let absent = Environment { configs: ConfigFiles::default(), ..env() };
    let text = compose(&absent, &sets(&["code"]));
    assert!(text.contains("\nuser config: (absent)\nproject config: (absent)\n"), "{text}");
    let explicit = Environment {
        configs: ConfigFiles::Explicit("/tmp/f.yaml".to_owned()),
        exe: None,
        ..env()
    };
    let text = compose(&explicit, &sets(&["code"]));
    assert!(
        text.contains("\nconfig: /tmp/f.yaml (given with -c; the only scope)\n"),
        "{text}"
    );
    assert!(!text.contains("user config:"), "{text}");
    assert!(text.contains("\niota binary: (unknown)\n"), "{text}");
}

/// The two probes the caller fills the environment from.
#[test]
fn probes_have_the_documented_shape() {
    assert_eq!(platform("linux", "x86_64"), "linux (x86_64)");
    let date = today();
    assert_eq!(date.len(), 10, "{date}");
    assert_eq!(date.as_bytes()[4], b'-');
    assert_eq!(date.as_bytes()[7], b'-');
    let e = Environment::as_of_today(
        "/p".to_owned(),
        "linux".to_owned(),
        "sh".to_owned(),
        None,
        ConfigFiles::default(),
    );
    assert_eq!(e.date.len(), 10);
    assert!(e.date.bytes().enumerate().all(|(i, b)| if i == 4 || i == 7 { b == b'-' } else { b.is_ascii_digit() }));
    assert_eq!(e.project_root, "/p");
}

#[test]
fn compose_send_history_borrowed_when_empty() {
    let history = vec![Message::system("sys"), Message::user("hi")];

    // Empty overlay: the exact same list, no copy.
    let out = compose_send_history(&history, "", "");
    assert!(matches!(out, Sent::Borrowed(_)), "empty overlay must borrow");
    assert!(
        std::ptr::eq(out.messages().as_ptr(), history.as_ptr()),
        "empty overlay should return the history itself"
    );
    assert_eq!(out.messages().len(), history.len());

    // Overlay appends to the existing system message on a copy.
    let out = compose_send_history(&history, "", "OVERLAY");
    assert!(matches!(out, Sent::Owned(_)));
    let out = out.messages();
    assert_eq!(out[0].content, "sys\n\nOVERLAY");
    assert_eq!(out.len(), 2);
    assert_eq!(out[1].content, "hi");
    assert_eq!(history[0].content, "sys", "overlay leaked into clean history");

    // No user system prompt: a synthetic system message is inserted.
    let no_sys = vec![Message::user("hi")];
    let out = compose_send_history(&no_sys, "", "OVERLAY");
    let out = out.messages();
    assert_eq!(out.len(), 2);
    assert_eq!(out[0].role(), Role::System);
    assert_eq!(out[0].content, "OVERLAY");
    assert_eq!(out[1].content, "hi");
    assert_eq!(no_sys.len(), 1);
    assert_eq!(no_sys[0].role(), Role::User);
}

/// The three segments: the harness leads, the user's prompt rides inside `<instructions>`, the overlay closes —
/// and a history with no system message gets one. Nothing is written back into the history.
#[test]
fn compose_send_history_puts_the_harness_first() {
    let history = vec![Message::system("sys"), Message::user("hi")];

    let out = compose_send_history(&history, "HARNESS", "");
    assert!(matches!(out, Sent::Owned(_)));
    let out = out.messages();
    assert_eq!(out.len(), 2);
    assert_eq!(out[0].role(), Role::System);
    assert_eq!(out[0].content, "HARNESS\n\n<instructions>\nsys\n</instructions>");
    assert_eq!(out[1].content, "hi");
    assert_eq!(history[0].content, "sys", "the harness leaked into the history");

    let out = compose_send_history(&history, "HARNESS", "OVERLAY");
    assert_eq!(
        out.messages()[0].content,
        "HARNESS\n\n<instructions>\nsys\n</instructions>\n\nOVERLAY"
    );

    let no_sys = vec![Message::user("hi")];
    let out = compose_send_history(&no_sys, "HARNESS", "");
    let out = out.messages();
    assert_eq!(out.len(), 2);
    assert_eq!(out[0].role(), Role::System);
    assert_eq!(out[0].content, "HARNESS");
    assert_eq!(out[1].content, "hi");
    let out = compose_send_history(&no_sys, "HARNESS", "OVERLAY");
    assert_eq!(out.messages()[0].content, "HARNESS\n\nOVERLAY");
    assert_eq!(no_sys.len(), 1);

    // An EMPTY user prompt is no prompt: no empty block.
    let blank = vec![Message::system(""), Message::user("hi")];
    let out = compose_send_history(&blank, "HARNESS", "");
    assert_eq!(out.messages()[0].content, "HARNESS");
    assert_eq!(out.messages().len(), 2);
}

/// Cumulative components from the root to the working directory, and the degenerate cases that collapse to the
/// root alone.
#[test]
fn agents_dirs_walks_root_to_cwd() {
    let root = "/p";
    assert_eq!(agents_dirs(root, "/p/a/b"), vec!["/p", "/p/a", "/p/a/b"]);
    for cwd in ["/p", "/", "/q/x", "rel"] {
        assert_eq!(agents_dirs(root, cwd), vec!["/p"], "cwd {cwd}");
    }
}

#[test]
fn the_project_root_is_the_nearest_marked_ancestor() {
    assert_eq!(ancestors("/a/b/c"), vec!["/a/b/c", "/a/b", "/a", "/"]);
    assert_eq!(project_root("/a/b/c", &vec![false, true, true, false]), "/a/b");
    assert_eq!(project_root("/a/b/c", &vec![false, false, false, false]), "/a/b/c");
}

#[test]
fn valid_skill_name_grammar() {
    for ok in ["a", "0", "my-skill", "a1-b2-c3", "skill-01"] {
        assert!(valid_skill_name(ok), "{ok} should be valid");
    }
    for bad in ["", "-a", "a-", "a--b", "A", "aB", "a_b", "a b", "a.b", "-", "ä"] {
        assert!(!valid_skill_name(bad), "{bad} should be invalid");
    }
}

#[test]
fn xml_escape_pairs() {
    assert_eq!(xml_escape("a&b<c>d"), "a&amp;b&lt;c&gt;d");
    assert_eq!(xml_escape("\"q\" 'q'"), "\"q\" 'q'");
    assert_eq!(xml_escape("&amp;"), "&amp;amp;");
    assert_eq!(xml_escape(""), "");
}

#[test]
fn skill_roots_precedence() {
    let root = "/proj";
    assert_eq!(
        skill_roots(root, Some("/home/u")),
        vec!["/proj/.agents/skills", "/home/u/.iota/skills", "/home/u/.agents/skills"]
    );
    assert_eq!(skill_roots(root, None), vec!["/proj/.agents/skills"]);
}

#[test]
fn skill_dir_is_the_parent() {
    let sk = Skill {
        name: "a".to_owned(),
        description: "d".to_owned(),
        path: "/abs/a/SKILL.md".to_owned(),
    };
    assert_eq!(sk.dir(), "/abs/a");
    let bare = Skill { path: "SKILL.md".to_owned(), ..sk };
    assert_eq!(bare.dir(), ".");
}

/// The four outcomes with an injected home. A path under none of the roots names its own directory, and without
/// a home the two user rungs simply do not apply.
#[test]
fn skill_source_tag_names_the_root_it_came_from() {
    let root = "/proj";
    let home = "/home/u";
    assert_eq!(
        skill_source_tag("/proj/.agents/skills/commit-helper/SKILL.md", root, Some(home)),
        "project"
    );
    assert_eq!(skill_source_tag("/home/u/.iota/skills/a/SKILL.md", root, Some(home)), "user");
    assert_eq!(
        skill_source_tag("/home/u/.agents/skills/a/SKILL.md", root, Some(home)),
        "user (.agents)"
    );
    assert_eq!(
        skill_source_tag("/opt/share/skills/a/SKILL.md", root, Some(home)),
        "/opt/share/skills/a"
    );
    assert_eq!(
        skill_source_tag("/home/u/.iota/skills/a/SKILL.md", root, None),
        "/home/u/.iota/skills/a"
    );
    // The project rung wins over a home that contains the project.
    assert_eq!(
        skill_source_tag("/home/u/proj/.agents/skills/a/SKILL.md", "/home/u/proj", Some(home)),
        "project"
    );
}

/// Whole components are compared, whatever stands between them.
#[test]
fn paths_are_read_by_their_parts() {
    assert_eq!(
        skill_source_tag("/proj/.agents/skills2/a/SKILL.md", "/proj", None),
        "/proj/.agents/skills2/a"
    );
    assert_eq!(skill_source_tag("/proj//.agents/skills/a", "/proj", None), "project");
    assert_eq!(skill_source_tag("/proj/./.agents/skills/a", "/proj/", None), "project");
    assert_eq!(skill_source_tag("/", "/proj", None), ".");
    assert_eq!(parent("/a//b/c/"), Some("/a//b".to_owned()));
    assert_eq!(parent("/a/./b"), Some("/a".to_owned()));
    assert_eq!(parent("/a"), Some("/".to_owned()));
    assert_eq!(parent("./a"), Some(".".to_owned()));
    assert_eq!(parent("a"), Some(String::new()));
    assert_eq!(parent("."), Some(String::new()));
    assert_eq!(parent("//"), None);
    assert_eq!(parent(""), None);
    assert_eq!(components("/a//./b/../c/"), ["/", "a", "b", "..", "c"]);
    assert_eq!(components("./a"), [".", "a"]);
    assert!(is_under("/a/b", "/a//"));
    assert!(!is_under("a/b", "/a"));
    assert_eq!(agents_dirs("/p", "/p//a"), ["/p", "/p/a"]);
    assert_eq!(agents_dirs("/p", "/p/a/../b/."), ["/p", "/p/b"]);
    assert_eq!(agents_dirs("/p", "/p/../q"), ["/p"]);
    assert_eq!(ancestors("/a//b"), ["/a//b", "/a", "/"]);
}

const SKILL: &str = "---\nname: greet\ndescription: says hello\n---\n\nSay <hello>.\n";

#[test]
fn a_skill_file_is_frontmatter_and_body() {
    let (front, body) = split_frontmatter(SKILL.as_bytes()).ok().expect("frontmatter");
    assert_eq!(front, "name: greet\ndescription: says hello");
    assert!(body.contains("Say <hello>."), "{body}");
    assert_eq!(skill_body(SKILL.as_bytes()).ok().expect("body"), "Say <hello>.\n");
    let sk = parse_skill(SKILL.as_bytes(), "greet", "/r/greet/SKILL.md").ok().expect("skill");
    assert_eq!(sk.name, "greet");
    assert_eq!(sk.description, "says hello");
    assert!(split_text("---\r\na: b\r\n---\r\n").is_ok());
    let doc = Yaml::Mapping(vec![
        (Yaml::Text("name".to_owned()), Yaml::Number("7".to_owned())),
        (Yaml::Text("description".to_owned()), Yaml::Bool(true)),
    ]);
    assert_eq!(skill_in(&doc, "7", "/r/7/SKILL.md").ok().expect("scalars").description, "true");
    assert!(skill_in(&Yaml::Null, "7", "/r/7/SKILL.md").is_err());
    assert!(parse_skill(SKILL.as_bytes(), "other", "/r/other/SKILL.md").is_err());
    assert!(parse_skill(b"no frontmatter", "greet", "/r/greet/SKILL.md").is_err());
    assert!(parse_skill(b"---\n: [\n---\n", "greet", "/r/greet/SKILL.md").is_err());
}

#[test]
fn the_first_skill_of_a_name_wins() {
    let file = |dir: &str, path: &str| SkillFile {
        dir_name: dir.to_owned(),
        path: path.to_owned(),
        data: SKILL.as_bytes().to_vec(),
    };
    let (skills, warnings) = discover_skills(&vec![
        file("greet", "/proj/.agents/skills/greet/SKILL.md"),
        file("greet", "/home/u/.iota/skills/greet/SKILL.md"),
    ]);
    assert_eq!(skills.len(), 1);
    assert_eq!(skills[0].path, "/proj/.agents/skills/greet/SKILL.md");
    assert!(warnings.is_empty(), "{warnings:?}");
    let (skills, warnings) = discover_skills(&vec![file("other", "/r/other/SKILL.md")]);
    assert!(skills.is_empty());
    assert_eq!(warnings.len(), 1, "{warnings:?}");
}

#[test]
fn the_catalog_escapes_and_fits() {
    let skills: Vec<Skill> = (0..600)
        .map(|i| Skill {
            name: format!("s{i}"),
            description: "a < b & c".repeat(20),
            path: format!("/r/s{i}/SKILL.md"),
        })
        .collect();
    let text = skills_catalog(&skills);
    assert!(text.contains("a &lt; b &amp; c"), "{}", &text[..200]);
    assert!(text.len() <= SKILLS_CATALOG_CAP, "{}", text.len());
    assert!(text.starts_with(SKILLS_CATALOG_INSTRUCTION));
    assert!(text.ends_with(" more skill(s) omitted: catalog size cap reached</note>\n</available_skills>"));
    // One byte more or less at the edge: what fits is shown, what does not is counted, and the cap holds.
    for len in 32_330..32_480 {
        let one = vec![Skill {
            name: "s".to_owned(),
            description: "d".repeat(len),
            path: "/r/s/SKILL.md".to_owned(),
        }];
        let text = skills_catalog(&one);
        assert!(text.len() <= SKILLS_CATALOG_CAP, "{len}: {}", text.len());
        assert!(text.ends_with("</available_skills>"));
        assert_ne!(text.contains("<name>s</name>"), text.contains("<note>1 more"), "{len}");
        let rest = "\n\n<available_skills>\n<skill>\n<name>s</name>\n<description></description>\n</skill>\n"
            .len() + "</available_skills>".len();
        let whole = SKILLS_CATALOG_INSTRUCTION.len() + rest + len;
        assert_eq!(text.contains("<name>s</name>"), whole <= SKILLS_CATALOG_CAP, "{len}");
    }
    assert_eq!(skills_catalog(&Vec::new()), "");
}

#[test]
fn the_chain_is_cut_at_its_cap() {
    let long = "x".repeat(AGENTS_CHAIN_CAP + 10);
    let chain = load_agents_chain(vec!["/p/AGENTS.md".to_owned()], &vec![long]);
    assert!(chain.content.ends_with(AGENTS_TRUNCATION_MARK));
    assert!(chain.content.len() <= AGENTS_CHAIN_CAP + AGENTS_TRUNCATION_MARK.len());
    let short = load_agents_chain(vec!["/p/AGENTS.md".to_owned()], &vec!["rules".to_owned()]);
    assert!(short.content.contains("rules"));
    assert_eq!(short.files.len(), 1);
    let raw = read_agents_chain(
        vec!["/p/AGENTS.md".to_owned(), "/p/a/AGENTS.md".to_owned()],
        &vec![b"one\n\n".to_vec(), b"tw\xffo".to_vec()],
    );
    assert_eq!(raw.content, "one\n\ntw\u{fffd}o");
}

fn seen(stamp: u64) -> FileProbe {
    found("/p/AGENTS.md", stamp)
}

fn found(path: &str, stamp: u64) -> FileProbe {
    FileProbe { path: path.to_owned(), present: true, stamp: Some(stamp), entries: Vec::new() }
}

/// What a refresh finds: chain files with their stamp and text, and skill files with theirs.
fn findings(chain: &[(&str, u64, &str)], skills: &[(&str, u64, &str)]) -> Findings {
    let probes: Vec<FileProbe> = chain.iter().map(|(p, t, _)| found(p, *t)).collect();
    let files = chain.iter().map(|(p, _, _)| (*p).to_owned()).collect();
    let texts = chain.iter().map(|(_, _, b)| (*b).to_owned()).collect();
    let skill_files: Vec<SkillFile> = skills
        .iter()
        .map(|(name, _, desc)| SkillFile {
            dir_name: (*name).to_owned(),
            path: format!("/r/{name}/SKILL.md"),
            data: format!("---\nname: {name}\ndescription: {desc}\n---\n\nbody\n").into_bytes(),
        })
        .collect();
    let (list, warnings) = discover_skills(&skill_files);
    let stamps = || -> Vec<FileProbe> {
        skills.iter().map(|(name, t, _)| found(&format!("/r/{name}/SKILL.md"), *t)).collect()
    };
    Findings {
        chain_now: probe(&probes),
        chain: load_agents_chain(files, &texts),
        skills_now: probe(&stamps()),
        skills: list,
        warnings,
        skills_then: probe(&stamps()),
    }
}

fn overlay(f: Findings) -> Overlay {
    Overlay::with_skill_dirs(
        vec!["/r".to_owned()],
        f.chain,
        f.chain_now.stamps,
        f.skills,
        f.warnings,
        f.skills_then,
    )
}

/// An unchanged chain reports no change and recomposes to the same bytes; a new stamp, a NEW file and a REMOVED one
/// each rebuild.
#[test]
fn test_overlay_freshness() {
    let root = "/p/AGENTS.md";
    let sub = "/p/sub/AGENTS.md";
    let mut o = overlay(findings(&[(root, 1_000_000, "v1")], &[]));
    assert_eq!(o.content(), "v1");
    assert_eq!(
        o.refresh(findings(&[(root, 1_000_000, "v1")], &[])),
        (false, false),
        "unchanged stamps must report no change"
    );
    assert_eq!(o.content(), "v1", "a no-op refresh must not recompose");
    assert!(
        o.refresh(findings(&[(root, 1_000_002, "v2")], &[])).0,
        "a new stamp must be detected"
    );
    assert_eq!(o.content(), "v2");
    assert!(
        o.refresh(findings(&[(root, 1_000_002, "v2"), (sub, 5, "SUB")], &[])).0,
        "a new chain file must be detected"
    );
    assert_eq!(o.content(), "v2\n\nSUB");
    assert_eq!(o.file_count(), 2);
    assert!(
        o.refresh(findings(&[(root, 1_000_002, "v2")], &[])).0,
        "a removed chain file must be detected"
    );
    assert_eq!(o.content(), "v2");
    assert_eq!(o.file_count(), 1);
}

/// The skills half moves on its own.
#[test]
fn test_overlay_skills_freshness() {
    let chain: &[(&str, u64, &str)] = &[("/p/AGENTS.md", 1, "RULES")];
    let alpha: &[(&str, u64, &str)] = &[("alpha", 1_000_000, "first skill")];
    let both: &[(&str, u64, &str)] =
        &[("alpha", 1_000_000, "first skill"), ("beta", 1_000_002, "second skill")];
    let mut o = overlay(findings(chain, alpha));
    assert_eq!(o.skill_count(), 1);
    let content = o.content();
    assert!(content.starts_with("RULES"), "the overlay opens with the chain: {content:?}");
    assert!(
        content.contains("<name>alpha</name>"),
        "the overlay carries the skills catalog: {content:?}"
    );
    assert_eq!(
        o.refresh(findings(chain, alpha)),
        (false, false),
        "unchanged skills roots must report no change"
    );
    assert_eq!(o.content(), content, "a no-op refresh is byte-identical");
    let (agents_changed, skills_changed) = o.refresh(findings(chain, both));
    assert!(!agents_changed, "the chain did not change");
    assert!(skills_changed, "a changed skill set must be detected");
    assert_eq!(o.skill_count(), 2);
    assert!(o.content().contains("<name>beta</name>"));
}

/// An in-place rewrite of a skill is caught by its own stamp.
#[test]
fn test_overlay_detects_skill_edit() {
    let mut o = overlay(findings(&[], &[("alpha", 1, "old description")]));
    assert!(o.content().contains("old description"));
    let (_, skills_changed) =
        o.refresh(findings(&[], &[("alpha", 4_000_000_000, "new description")]));
    assert!(skills_changed, "an in-place edit must be detected");
    assert!(o.content().contains("new description"), "the catalog must recompose");
}

/// A new entry of a skills directory is a change even when the directory keeps its stamp.
#[test]
fn a_new_skill_directory_changes_the_probe_without_touching_the_root_stamp() {
    let root = |entries: &[&str]| FileProbe {
        path: "/r".to_owned(),
        present: true,
        stamp: Some(1),
        entries: entries.iter().map(|e| format!("/r/{e}")).collect(),
    };
    let before = probe(&vec![root(&["page"])]);
    let after = probe(&vec![root(&["page", "code"])]);
    assert_ne!(before.paths, after.paths, "the new entry must show in the path list");
    assert!(after.paths.contains(&"/r/code".to_owned()));
    assert_eq!(after.paths.len(), before.paths.len() + 1);
}

/// What was refreshed is settled.
#[test]
fn a_refresh_sees_a_new_file_once() {
    let mut o = overlay(findings(&[], &[]));
    assert_eq!(o.content(), "");
    assert!(o.chain_changed(&probe(&vec![seen(7)])));
    assert_eq!(o.refresh(findings(&[("/p/AGENTS.md", 7, "rules")], &[])), (true, false));
    assert!(!o.chain_changed(&probe(&vec![seen(7)])));
    assert_eq!(o.refresh(findings(&[("/p/AGENTS.md", 7, "rules")], &[])), (false, false));
    assert_eq!(o.chain_size(), 5);
    assert!(o.warnings().is_empty());
}
