//! The built-in harness prompt: the fixed paragraph every agent WITH tools sends ahead of the user's own
//! instructions — who the model is running inside, what the environment is, and (when the `shell` set is on)
//! how the program's own command line is driven from it.

use vstd::prelude::*;
use vstd::string::*;

use crate::text::{holds, is_digit, own, strs};

verus! {

/// The `tools:` key that brings the command-line block with it.
pub const SHELL_SET: &'static str = "shell";

/// The size the whole paragraph is meant to stay under, in bytes.
pub const HARNESS_CAP: usize = 1536;

/// What the `<environment>` block reports.
pub struct Environment {
    /// The project root.
    pub project_root: String,
    /// The operating system and the architecture, as one phrase.
    pub platform: String,
    /// The interpreter the `shell` set runs.
    pub shell: String,
    /// Today's local date, `YYYY-MM-DD`.
    pub date: String,
    /// The running binary; `None` when the system could not say.
    pub exe: Option<String>,
    /// The config files this run reads.
    pub configs: ConfigFiles,
}

/// The config files a run reads.
pub enum ConfigFiles {
    /// The two tiers: the user file and the project file, each `None` when absent.
    Tiers {
        /// The user file, when it exists.
        user: Option<String>,
        /// The project file, when it exists.
        project: Option<String>,
    },
    /// The one file that was given by name.
    Explicit(String),
}

impl Default for ConfigFiles {
    /// Both tiers absent.
    fn default() -> (r: ConfigFiles)
        ensures
            r == (ConfigFiles::Tiers { user: None, project: None }),
    {
        ConfigFiles::Tiers { user: None, project: None }
    }
}

/// The operating system and the architecture, as one phrase.
pub fn platform(os: &str, arch: &str) -> (r: String)
    ensures
        r@ == os@ + " ("@ + arch@ + ")"@,
{
    let mut m: String = own(os);
    m.append(" (");
    m.append(arch);
    m.append(")");
    m
}

/// Whether a text is a date: it ends in `YYYY-MM-DD`. A year before the common era has a sign before that.
pub open spec fn is_date(s: Seq<char>) -> bool {
    let n = s.len();
    &&& n >= 10
    &&& is_digit(s[n - 10]) && is_digit(s[n - 9]) && is_digit(s[n - 8]) && is_digit(s[n - 7])
    &&& s[n - 6] == '-'
    &&& is_digit(s[n - 5]) && is_digit(s[n - 4])
    &&& s[n - 3] == '-'
    &&& is_digit(s[n - 2]) && is_digit(s[n - 1])
}

/// `jiff::Zoned::now` and the date of it, printed: today's local date, `YYYY-MM-DD`. Of the text only its form is
/// said; which date it is depends on the clock and on the time zone of the machine.
#[verifier::external_body]
pub fn today() -> (r: String)
    ensures
        is_date(r@),
{
    jiff::Zoned::now().date().to_string()
}

impl Environment {
    /// The environment as of today.
    pub fn as_of_today(
        project_root: String,
        platform: String,
        shell: String,
        exe: Option<String>,
        configs: ConfigFiles,
    ) -> (r: Environment)
        ensures
            r.project_root == project_root,
            r.platform == platform,
            r.shell == shell,
            r.exe == exe,
            r.configs == configs,
            is_date(r.date@),
    {
        Environment { project_root, platform, shell, date: today(), exe, configs }
    }
}

/// The identity and the two behaviour rules, ahead of every tagged block.
pub const PREAMBLE: &'static str = "You run inside iota, a coding agent in the user's terminal, acting on their project through the tools you are given. Report what you did and found.\nA tool call the user declines is not retried: say what it was for and ask. A command failing with `Operation not permitted`, a write outside the project or no network was stopped by the sandbox, not wrong in itself — say so instead of rewriting it.";

/// The `<iota_cli>` block: the program's own command line, driven from the `shell` set.
pub const IOTA_CLI: &'static str = "<iota_cli>\niota itself runs OUTSIDE the shell sandbox when it is the command's first word (plain `iota …`, no pipe or chain). It manages its own configuration:\n- iota mcp add <name> --url <url> [--header 'K: V'] [--scope user|project] — writes the entry and logs in through the browser if needed; run with background: true\n- iota mcp add <name> -- <command> [args]\n- iota mcp list [--probe] | get | remove | login (background: true) | logout <name>\n- iota config check | path | init\n- iota list agents | models | providers\n- iota run <agent> -m \"<task>\" — a child agent under its own agent config\nChange MCP servers with `iota mcp`; providers, models and agents by editing the config file, then `iota config check`. Changes apply from the next session, not this one. Flags: `iota <verb> --help`.\n</iota_cli>";

/// A path, or the word for its absence.
pub open spec fn path_or(path: Option<String>, absent: Seq<char>) -> Seq<char> {
    match path {
        Some(p) => p@,
        None => absent,
    }
}

/// `key: value` as a line of its own.
pub open spec fn fact(key: Seq<char>, value: Seq<char>) -> Seq<char> {
    key + ": "@ + value + "\n"@
}

/// One line per fact, absence spelled out rather than left blank.
pub open spec fn environment_text(env: Environment) -> Seq<char> {
    "<environment>\n"@ + fact("project root"@, env.project_root@) + fact(
        "platform"@,
        env.platform@,
    ) + fact("shell"@, env.shell@) + fact("date"@, env.date@) + fact(
        "iota binary"@,
        path_or(env.exe, "(unknown)"@),
    ) + config_lines(env.configs) + "</environment>"@
}

/// The lines about the config files.
pub open spec fn config_lines(configs: ConfigFiles) -> Seq<char> {
    match configs {
        ConfigFiles::Tiers { user, project } => fact("user config"@, path_or(user, "(absent)"@))
            + fact("project config"@, path_or(project, "(absent)"@)),
        ConfigFiles::Explicit(path) => fact(
            "config"@,
            path@ + " (given with -c; the only scope)"@,
        ),
    }
}

/// The harness of an agent that enables `toolsets`: nothing without a toolset; the preamble and the
/// environment otherwise; the command-line block after them when the `shell` set is among the toolsets.
pub open spec fn composed(env: Environment, toolsets: Seq<Seq<char>>) -> Seq<char> {
    if toolsets.len() == 0 {
        Seq::empty()
    } else if toolsets.contains(SHELL_SET@) {
        PREAMBLE@ + "\n\n"@ + environment_text(env) + "\n\n"@ + IOTA_CLI@
    } else {
        PREAMBLE@ + "\n\n"@ + environment_text(env)
    }
}

/// Appends `key: value` as a line of its own.
fn add_fact(out: &mut String, key: &str, value: &str)
    ensures
        final(out)@ == old(out)@ + fact(key@, value@),
{
    out.append(key);
    out.append(": ");
    out.append(value);
    out.append("\n");
    assert(out@ =~= old(out)@ + fact(key@, value@));
}

/// A path, or the word for its absence.
fn shown<'a>(path: &'a Option<String>, absent: &'a str) -> (r: &'a str)
    ensures
        r@ == path_or(*path, absent@),
{
    match path {
        Some(p) => p.as_str(),
        None => absent,
    }
}

/// The `<environment>` block.
fn environment_block(env: &Environment) -> (r: String)
    ensures
        r@ == environment_text(*env),
{
    let mut out: String = own("<environment>\n");
    add_fact(&mut out, "project root", env.project_root.as_str());
    add_fact(&mut out, "platform", env.platform.as_str());
    add_fact(&mut out, "shell", env.shell.as_str());
    add_fact(&mut out, "date", env.date.as_str());
    add_fact(&mut out, "iota binary", shown(&env.exe, "(unknown)"));
    let ghost head = out@;
    match &env.configs {
        ConfigFiles::Tiers { user, project } => {
            add_fact(&mut out, "user config", shown(user, "(absent)"));
            add_fact(&mut out, "project config", shown(project, "(absent)"));
        },
        ConfigFiles::Explicit(path) => {
            let mut line: String = path.clone();
            line.append(" (given with -c; the only scope)");
            add_fact(&mut out, "config", line.as_str());
        },
    }
    assert(out@ =~= head + config_lines(env.configs));
    out.append("</environment>");
    out
}

/// The harness of an agent that enables `toolsets`.
pub fn compose(env: &Environment, toolsets: &Vec<String>) -> (r: String)
    ensures
        r@ == composed(*env, strs(toolsets@)),
{
    if toolsets.len() == 0 {
        return String::new();
    }
    let mut out: String = own(PREAMBLE);
    out.append("\n\n");
    out.append(environment_block(env).as_str());
    if holds(toolsets, SHELL_SET) {
        out.append("\n\n");
        out.append(IOTA_CLI);
    }
    out
}

} // verus!
