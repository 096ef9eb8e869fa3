//! `iota config [check|path|init]` — the three questions a config file raises: does it say what I think it
//! says, which file am I actually editing, and how do I get a first one.

use vstd::prelude::*;
use vstd::string::*;

use crate::app::{join_path, path_join, CONFIG_BASE};
use crate::cmd::args::{ConfigAction, ConfigCmd};
use crate::cmd::error::{CliError, SetupError};
use crate::cmd::io::Streams;
use crate::config::error::ConfigError;
use crate::config::{Config, ConfigView, DEFAULT_AGENT};
use crate::map::pairs_of;
use crate::text::{decimal, decimal_of, own, strs};

verus! {

/// The starter config. Every layer gets one entry and one sentence saying what it is for; the model id is
/// deliberately a current one rather than a placeholder, so the file runs as written once the key is in the
/// environment.
pub const STARTER: &'static str = "\
# iota config. Three layers, each answering one question.
#
#   providers:  how do I reach the API?      (type, key, url)
#   models:     which model, and how does its protocol work?
#   agents:     how is it driven?            (prompt, tools, MCP servers, sessions)
#
# `iota` runs the agent named `default`; `iota run <agent>` runs any other.
# See `iota list agents` and https://iota.sh for the full reference.

providers:
  openai:
    # The key is read from $OPENAI_API_KEY when this is absent — keep it out of the file if you can.
    # key: sk-...
    type: openai

models:
  gpt:
    provider: openai
    id: gpt-5.2
    # context_window: 400k    # what /compact accounts against

agents:
  default:
    models: [gpt]             # the candidate set, best first; -M and /model pick from it
    # Your own instructions. iota already tells the model what it runs inside and where (the
    # built-in harness prompt: identity, environment, and its own command line when `shell` is on).
    system: \"You are a careful coding assistant.\"
    tools:
      code:                   # read/write/edit/grep over the project
      shell:                  # shell commands, with a sandbox by default
    # workspace: true         # AGENTS.md overlay, skills, project-scoped sessions

# MCP servers go under a top-level `mcp_servers:` block, which `iota mcp add <name> -- <command>`
# (or `--url <url>`) writes and `iota mcp remove <name>` edits for you.
";

/// What the file system says about the config files of an invocation.
pub struct ConfigFacts {
    /// The file given by name.
    pub explicit: Option<String>,
    /// The home directory.
    pub home: Option<String>,
    /// The files the invocation reads, in merge order, each with whether it is there.
    pub files: Vec<(String, bool)>,
    /// What loading them gave.
    pub loaded: Result<Config, ConfigError>,
    /// What loading them warned of.
    pub warnings: Vec<String>,
    /// Whether there is something where the starter would be written.
    pub target_exists: bool,
}

/// The global config file, in the first of the two extensions.
pub open spec fn home_config(home: Seq<char>) -> Seq<char> {
    path_join(home, CONFIG_BASE@ + ".yaml"@)
}

/// The global config file.
pub fn default_config_path(home: &Option<String>) -> (r: Result<String, SetupError>)
    ensures
        match *home {
            Some(h) => r matches Ok(p) && p@ == home_config(h@),
            None => r matches Err(e) && e is NoHome,
        },
{
    match home {
        Some(h) => {
            let mut name: String = own(CONFIG_BASE);
            name.append(".yaml");
            Ok(join_path(h.as_str(), name.as_str()))
        },
        None => Err(SetupError::NoHome),
    }
}

/// The file the starter is written to: the one given by name, else the global one.
pub open spec fn starter_path(explicit: Option<String>, home: Option<String>) -> Option<Seq<char>> {
    match explicit {
        Some(p) => Some(p@),
        None => match home {
            Some(h) => Some(home_config(h@)),
            None => None,
        },
    }
}

/// The file the starter is written to.
pub fn starter_target(explicit: &Option<String>, home: &Option<String>) -> (r: Result<
    String,
    SetupError,
>)
    ensures
        match starter_path(*explicit, *home) {
            Some(path) => r matches Ok(p) && p@ == path,
            None => r matches Err(e) && e is NoHome,
        },
{
    match explicit {
        Some(p) => Ok(p.clone()),
        None => default_config_path(home),
    }
}

/// Lines, each with its end.
pub open spec fn lines(v: Seq<Seq<char>>) -> Seq<char>
    decreases v.len(),
{
    if v.len() == 0 {
        Seq::empty()
    } else {
        lines(v.drop_last()) + v.last() + "\n"@
    }
}

/// What is said when there is no config file.
pub open spec fn nothing_found() -> Seq<char> {
    "No config file found. Run `iota config init` to write one.\n"@
}

/// The paths of the files.
pub open spec fn paths(files: Seq<(String, bool)>) -> Seq<Seq<char>> {
    Seq::new(files.len(), |i: int| files[i].0@)
}

/// The paths of the files, each marked when it is missing.
pub open spec fn marked_paths(files: Seq<(String, bool)>) -> Seq<Seq<char>> {
    Seq::new(
        files.len(),
        |i: int|
            files[i].0@ + if files[i].1 {
                Seq::empty()
            } else {
                "  (missing)"@
            },
    )
}

/// What the layers hold, in a line.
pub open spec fn tally(cfg: ConfigView) -> Seq<char> {
    "OK: "@ + decimal_of(pairs_of(cfg.providers).len()) + " provider(s), "@ + decimal_of(
        pairs_of(cfg.models).len(),
    ) + " model(s), "@ + decimal_of(pairs_of(cfg.agents).len()) + " agent(s), "@ + decimal_of(
        pairs_of(cfg.mcp_servers).len(),
    ) + " mcp server(s)"@
}

/// What a check prints of a config that loads.
pub open spec fn check_text(files: Seq<(String, bool)>, cfg: ConfigView) -> Seq<char> {
    if files.len() == 0 {
        nothing_found()
    } else {
        lines(paths(files)) + tally(cfg) + "\n"@
    }
}

/// What a check warns of, beyond what the load did: a bare run that has nothing to run.
pub open spec fn check_warning(files: Seq<(String, bool)>, cfg: ConfigView) -> Seq<char> {
    if files.len() > 0 && !cfg.agents.contains_key(DEFAULT_AGENT@) {
        "Warning: no `agents."@ + DEFAULT_AGENT@ + "` entry: a bare `iota` has nothing to run\n"@
    } else {
        Seq::empty()
    }
}

/// What the starter prints when it was written.
pub open spec fn wrote_text(path: Seq<char>) -> Seq<char> {
    "Wrote "@ + path
        + "\nNext: export OPENAI_API_KEY=... (or put `key:` in the file), then run `iota`.\n"@
}

/// Prints lines on standard output.
fn print_paths(files: &Vec<(String, bool)>, mark: bool) -> (r: String)
    ensures
        r@ == lines(
            if mark {
                marked_paths(files@)
            } else {
                paths(files@)
            },
        ),
{
    let ghost all = if mark {
        marked_paths(files@)
    } else {
        paths(files@)
    };
    let mut out: String = String::new();
    assert(all.take(0) =~= Seq::<Seq<char>>::empty());
    assert(out@ =~= lines(all.take(0)));
    for i in 0..files.len()
        invariant
            all.len() == files@.len(),
            all == if mark {
                marked_paths(files@)
            } else {
                paths(files@)
            },
            out@ == lines(all.take(i as int)),
    {
        let mut line: String = files[i].0.clone();
        if mark && !files[i].1 {
            line.append("  (missing)");
        }
        proof {
            assert(line@ =~= all[i as int]);
            assert(all.take(i + 1).drop_last() =~= all.take(i as int));
        }
        out.append(line.as_str());
        out.append("\n");
    }
    assert(all.take(all.len() as int) =~= all);
    out
}

/// What the layers hold, in a line.
fn tally_line(cfg: &Config) -> (r: String)
    ensures
        r@ == tally(cfg@),
{
    let mut r: String = own("OK: ");
    r.append(decimal(cfg.providers.len() as u64).as_str());
    r.append(" provider(s), ");
    r.append(decimal(cfg.models.len() as u64).as_str());
    r.append(" model(s), ");
    r.append(decimal(cfg.agents.len() as u64).as_str());
    r.append(" agent(s), ");
    r.append(decimal(cfg.mcp_servers.len() as u64).as_str());
    r.append(" mcp server(s)");
    r
}

/// Prints what loading the config warned of.
fn print_warnings(warnings: &Vec<String>, io: &mut Streams)
    ensures
        final(io).stdout == old(io).stdout,
        final(io).stderr@ == old(io).stderr@ + lines(strs(warnings@)),
{
    let ghost all = strs(warnings@);
    let ghost was = io.stderr@;
    assert(all.take(0) =~= Seq::<Seq<char>>::empty());
    assert(was + lines(all.take(0)) =~= was);
    for i in 0..warnings.len()
        invariant
            all == strs(warnings@),
            io.stdout == old(io).stdout,
            io.stderr@ == was + lines(all.take(i as int)),
    {
        io.warning(warnings[i].as_str());
        proof {
            assert(all[i as int] == warnings@[i as int]@);
            assert(all.take(i + 1).drop_last() =~= all.take(i as int));
            assert(io.stderr@ =~= was + lines(all.take(i + 1)));
        }
    }
    assert(all.take(all.len() as int) =~= all);
}

/// `config check`: load exactly what a run would load — every warning on standard error, the first hard error
/// as the run's own — then report what the layers ended up holding.
fn check(facts: ConfigFacts, io: &mut Streams) -> (r: Result<(), CliError>)
    ensures
        match facts.loaded {
            Err(e) => {
                &&& r == Err::<(), CliError>(CliError::Setup(SetupError::Config(e)))
                &&& final(io).stdout == old(io).stdout
                &&& final(io).stderr@ == old(io).stderr@ + lines(strs(facts.warnings@))
            },
            Ok(cfg) => {
                &&& r is Ok
                &&& final(io).stdout@ == old(io).stdout@ + check_text(facts.files@, cfg@)
                &&& final(io).stderr@ == old(io).stderr@ + lines(strs(facts.warnings@))
                    + check_warning(facts.files@, cfg@)
            },
        },
{
    print_warnings(&facts.warnings, io);
    let ghost warned = io.stderr@;
    let cfg: Config = match facts.loaded {
        Ok(cfg) => cfg,
        Err(e) => return Err(CliError::Setup(SetupError::Config(e))),
    };
    assert(warned + Seq::<char>::empty() =~= warned);
    if facts.files.len() == 0 {
        io.stdout.append("No config file found. Run `iota config init` to write one.\n");
        return Ok(());
    }
    let mut text: String = print_paths(&facts.files, false);
    text.append(tally_line(&cfg).as_str());
    text.append("\n");
    io.stdout.append(text.as_str());
    if cfg.default_agent().is_none() {
        let mut w: String = own("Warning: no `agents.");
        w.append(DEFAULT_AGENT);
        w.append("` entry: a bare `iota` has nothing to run\n");
        io.stderr.append(w.as_str());
    }
    Ok(())
}

/// `iota config <action>`; the default action is `check`. A path in the result is where the starter is to be
/// written: the command never names one where something exists.
pub fn run_config(cmd: &ConfigCmd, facts: ConfigFacts, io: &mut Streams) -> (r: Result<
    Option<String>,
    CliError,
>)
    ensures
        match cmd.action {
            None | Some(ConfigAction::Check) => match facts.loaded {
                Err(e) => {
                    &&& r == Err::<Option<String>, CliError>(
                        CliError::Setup(SetupError::Config(e)),
                    )
                    &&& final(io).stdout == old(io).stdout
                    &&& final(io).stderr@ == old(io).stderr@ + lines(strs(facts.warnings@))
                },
                Ok(cfg) => {
                    &&& r == Ok::<Option<String>, CliError>(None)
                    &&& final(io).stdout@ == old(io).stdout@ + check_text(facts.files@, cfg@)
                    &&& final(io).stderr@ == old(io).stderr@ + lines(strs(facts.warnings@))
                        + check_warning(facts.files@, cfg@)
                },
            },
            Some(ConfigAction::Path) => {
                &&& r == Ok::<Option<String>, CliError>(None)
                &&& final(io).stderr == old(io).stderr
                &&& final(io).stdout@ == old(io).stdout@ + if facts.files@.len() == 0 {
                    nothing_found()
                } else {
                    lines(marked_paths(facts.files@))
                }
            },
            Some(ConfigAction::Init) => {
                &&& final(io).stderr == old(io).stderr
                &&& match starter_path(facts.explicit, facts.home) {
                    None => (r matches Err(CliError::Setup(SetupError::NoHome))) && final(io).stdout
                        == old(io).stdout,
                    Some(path) => if facts.target_exists {
                        (r matches Err(CliError::Setup(SetupError::ConfigExists(p))) && p@ == path)
                            && final(io).stdout == old(io).stdout
                    } else {
                        (r matches Ok(Some(p)) && p@ == path) && final(io).stdout@
                            == old(io).stdout@ + wrote_text(path)
                    },
                }
            },
        },
{
    let action: ConfigAction = match cmd.action {
        Some(a) => a,
        None => ConfigAction::Check,
    };
    match action {
        ConfigAction::Check => match check(facts, io) {
            Ok(_) => Ok(None),
            Err(e) => Err(e),
        },
        ConfigAction::Path => {
            if facts.files.len() == 0 {
                io.stdout.append("No config file found. Run `iota config init` to write one.\n");
            } else {
                io.stdout.append(print_paths(&facts.files, true).as_str());
            }
            Ok(None)
        },
        ConfigAction::Init => {
            let path: String = match starter_target(&facts.explicit, &facts.home) {
                Ok(p) => p,
                Err(e) => return Err(CliError::Setup(e)),
            };
            if facts.target_exists {
                return Err(CliError::Setup(SetupError::ConfigExists(path)));
            }
            let mut text: String = own("Wrote ");
            text.append(path.as_str());
            text.append(
                "\nNext: export OPENAI_API_KEY=... (or put `key:` in the file), then run `iota`.\n",
            );
            io.stdout.append(text.as_str());
            Ok(Some(path))
        },
    }
}

/// Where a first run writes the starter: with no file given by name and none found, the global config file.
/// `None` = nothing is written: a file exists, one was named, or there is no home to write into.
pub open spec fn first_config(explicit: Option<String>, found: nat, home: Option<String>) -> Option<
    Seq<char>,
> {
    if explicit is Some || found > 0 {
        None
    } else {
        starter_path(None, home)
    }
}

/// A first run writes the starter itself, and names it on standard error; the run then goes on.
pub fn auto_init(
    explicit: &Option<String>,
    found: usize,
    home: &Option<String>,
    io: &mut Streams,
) -> (r: Option<String>)
    ensures
        final(io).stdout == old(io).stdout,
        match first_config(*explicit, found as nat, *home) {
            Some(path) => (r matches Some(p) && p@ == path) && final(io).stderr@
                == old(io).stderr@ + "Wrote "@ + path
                + " (a starter config: openai + gpt-5.2; edit it, or set OPENAI_API_KEY and go)\n"@,
            None => r is None && final(io).stderr == old(io).stderr,
        },
{
    if explicit.is_some() || found > 0 {
        return None;
    }
    match default_config_path(home) {
        Err(_) => None,
        Ok(path) => {
            io.stderr.append("Wrote ");
            io.stderr.append(path.as_str());
            io.stderr.append(
                " (a starter config: openai + gpt-5.2; edit it, or set OPENAI_API_KEY and go)\n",
            );
            Some(path)
        },
    }
}

/// A first run writes the very file that `config init` would.
pub proof fn first_run_writes_what_init_writes(home: Option<String>)
    ensures
        first_config(None, 0, home) == starter_path(None, home),
{
}

} // verus!
