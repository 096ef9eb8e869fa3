//! The command line: a closed set of verbs plus the flags that describe ONE invocation.

use vstd::prelude::*;
use vstd::string::*;

use crate::cmd::error::ArgsError;
use crate::text::{own, trim, trimmed};

verus! {

/// `iota [command] [flags]`. With no command it IS `run`.
pub struct Cli {
    /// The verb; `None` = `run` with no agent name.
    pub command: Option<Command>,
    /// The config file given by name, valid before or after the verb.
    pub config: Option<String>,
    /// The flags a bare `iota` takes — `run`'s own.
    pub run: RunArgs,
}

/// The verbs.
pub enum Command {
    /// Run an agent.
    Run(RunCmd),
    /// List what the config declares, or the saved sessions.
    List(ListCmd),
    /// Resume a saved session.
    Resume(ResumeCmd),
    /// Check, locate or create the config file.
    Config(ConfigCmd),
    /// Add, list, inspect or remove MCP servers.
    Mcp(McpCmd),
    /// Print the version.
    Version,
}

/// `iota run [<agent>] [flags]`.
pub struct RunCmd {
    /// The `agents:` entry to run.
    pub agent: Option<String>,
    /// The run flags.
    pub args: RunArgs,
}

/// `iota resume [<id>] [flags]`.
pub struct ResumeCmd {
    /// The session id, or any unique prefix of one.
    pub id: Option<String>,
    /// The run flags.
    pub args: RunArgs,
}

/// `iota list [what] [<agent>]`.
pub struct ListCmd {
    /// What to list.
    pub what: Option<ListWhat>,
    /// The agent whose candidate set to show.
    pub agent: Option<String>,
}

/// The four things that can be listed.
#[derive(Clone, Copy, Debug, PartialEq, Eq, Structural)]
pub enum ListWhat {
    Agents,
    Models,
    Providers,
    Sessions,
}

/// `iota config [check|path|init]`.
pub struct ConfigCmd {
    /// What to do.
    pub action: Option<ConfigAction>,
}

/// The three things that can be done with a config.
#[derive(Clone, Copy, Debug, PartialEq, Eq, Structural)]
pub enum ConfigAction {
    Check,
    Path,
    Init,
}

/// `iota mcp <action>`.
pub struct McpCmd {
    /// What to do.
    pub action: McpAction,
}

/// The actions on servers.
pub enum McpAction {
    /// Add a server.
    Add(McpAddCmd),
    /// List the servers.
    List(McpListCmd),
    /// Show one server.
    Get {
        /// The server name.
        name: String,
    },
    /// Remove a server.
    Remove {
        /// The server name.
        name: String,
        /// Which file to remove it from.
        scope: Option<McpScope>,
    },
    /// Sign in to a server.
    Login {
        /// The server name.
        name: String,
        /// Print the address instead of opening it.
        no_browser: bool,
        /// The client to sign in as.
        client_id: Option<String>,
    },
    /// Forget the tokens of a server.
    Logout {
        /// The server name.
        name: String,
    },
}

/// `iota mcp add <name> [flags] -- <command> [args…]` / `iota mcp add <name> --url <url> [flags]`.
pub struct McpAddCmd {
    /// The server name.
    pub name: String,
    /// Which file to write.
    pub scope: Option<McpScope>,
    /// Environment for a command server.
    pub env: Vec<String>,
    /// The summary that defers the server's tools behind a search.
    pub defer: Option<String>,
    /// The endpoint.
    pub url: Option<String>,
    /// Headers for an endpoint.
    pub headers: Vec<String>,
    /// How an endpoint is authenticated.
    pub auth: Option<McpAuthArg>,
    /// The client registered with an endpoint.
    pub client_id: Option<String>,
    /// The variable that holds its secret.
    pub client_secret_env: Option<String>,
    /// The command and its arguments.
    pub command: Vec<String>,
}

/// `iota mcp list [--scope user|project|all] [--json] [--probe]`.
pub struct McpListCmd {
    /// Which files to read.
    pub scope: Option<McpListScope>,
    /// One JSON array instead of the table.
    pub json: bool,
    /// Connect to every server and report the outcome.
    pub probe: bool,
}

/// The two files a writing action can target.
#[derive(Clone, Copy, Debug, PartialEq, Eq, Structural)]
pub enum McpScope {
    User,
    Project,
}

/// What a listing reads.
#[derive(Clone, Copy, Debug, PartialEq, Eq, Structural)]
pub enum McpListScope {
    User,
    Project,
    All,
}

/// How an endpoint is authenticated.
#[derive(Clone, Copy, Debug, PartialEq, Eq, Structural)]
pub enum McpAuthArg {
    /// A login.
    Oauth,
    /// The headers as written, nothing more.
    Off,
}

/// The flags of one run.
pub struct RunArgs {
    /// `-m/--message`.
    pub message: Option<String>,
    /// `-M/--model`.
    pub model: Option<String>,
    /// `-s/--system`.
    pub system: Option<String>,
    /// `--mcp`.
    pub mcp: Vec<String>,
    /// `--no-save`.
    pub no_save: bool,
    /// `--max-turns`.
    pub max_turns: i64,
    /// `--output-format`.
    pub output_format: Option<String>,
}

impl Default for RunArgs {
    /// No flag at all.
    fn default() -> (r: RunArgs)
        ensures
            r.message is None,
            r.model is None,
            r.system is None,
            r.mcp@.len() == 0,
            !r.no_save,
            r.max_turns == 0,
            r.output_format is None,
    {
        RunArgs {
            message: None,
            model: None,
            system: None,
            mcp: Vec::new(),
            no_save: false,
            max_turns: 0,
            output_format: None,
        }
    }
}

/// The word of a verb.
pub open spec fn verb_word(c: Command) -> Seq<char> {
    match c {
        Command::Run(_) => "run"@,
        Command::List(_) => "list"@,
        Command::Resume(_) => "resume"@,
        Command::Config(_) => "config"@,
        Command::Mcp(_) => "mcp"@,
        Command::Version => "version"@,
    }
}

impl Command {
    /// The word the user typed for this verb.
    pub fn verb(&self) -> (r: &'static str)
        ensures
            r@ == verb_word(*self),
    {
        match self {
            Command::Run(_) => "run",
            Command::List(_) => "list",
            Command::Resume(_) => "resume",
            Command::Config(_) => "config",
            Command::Mcp(_) => "mcp",
            Command::Version => "version",
        }
    }
}

/// The first flag that was given, as the user would type it.
pub open spec fn given_flag(a: RunArgs) -> Option<Seq<char>> {
    if a.message is Some {
        Some("-m/--message"@)
    } else if a.model is Some {
        Some("-M/--model"@)
    } else if a.system is Some {
        Some("-s/--system"@)
    } else if a.mcp@.len() > 0 {
        Some("--mcp"@)
    } else if a.no_save {
        Some("--no-save"@)
    } else if a.max_turns != 0 {
        Some("--max-turns"@)
    } else if a.output_format is Some {
        Some("--output-format"@)
    } else {
        None
    }
}

impl RunArgs {
    /// The first flag that was given; `None` when none was.
    pub fn first_given(&self) -> (r: Option<&'static str>)
        ensures
            match r {
                Some(f) => given_flag(*self) == Some(f@),
                None => given_flag(*self) is None,
            },
    {
        if self.message.is_some() {
            Some("-m/--message")
        } else if self.model.is_some() {
            Some("-M/--model")
        } else if self.system.is_some() {
            Some("-s/--system")
        } else if self.mcp.len() > 0 {
            Some("--mcp")
        } else if self.no_save {
            Some("--no-save")
        } else if self.max_turns != 0 {
            Some("--max-turns")
        } else if self.output_format.is_some() {
            Some("--output-format")
        } else {
            None
        }
    }

    /// Whether a headless run would accept these flags.
    pub fn reject_unsupported(&self) -> (r: Result<(), ArgsError>)
        ensures
            match r {
                Ok(_) => !self.no_save,
                Err(ArgsError::UnsupportedFlag(f)) => self.no_save && f@ == "--no-save"@,
                Err(_) => false,
            },
    {
        if self.no_save {
            return Err(ArgsError::UnsupportedFlag("--no-save"));
        }
        Ok(())
    }
}

impl Cli {
    /// The complaint about a run flag before another verb; `None` when there is none.
    pub open spec fn misplacement(&self) -> Option<Seq<char>> {
        match (self.command, given_flag(self.run)) {
            (Some(command), Some(flag)) => Some(
                "'"@ + flag + "' is a flag of `iota run`; put it after the '"@ + verb_word(command)
                    + "' command"@,
            ),
            _ => None,
        }
    }

    /// `run`'s flags are meaningful only for a run: giving one BEFORE another verb is a mistake.
    pub fn check_flag_placement(&self) -> (r: Result<(), String>)
        ensures
            match r {
                Ok(_) => self.misplacement() is None,
                Err(m) => self.misplacement() == Some(m@),
            },
    {
        match (&self.command, self.run.first_given()) {
            (Some(command), Some(flag)) => {
                let mut m: String = own("'");
                m.append(flag);
                m.append("' is a flag of `iota run`; put it after the '");
                m.append(command.verb());
                m.append("' command");
                Err(m)
            },
            _ => Ok(()),
        }
    }

    /// The command this invocation means — the verb as typed, or `run` with no agent — and the config file.
    pub fn into_command(self) -> (r: (Command, Option<String>))
        ensures
            r.1 == self.config,
            r.0 == match self.command {
                Some(c) => c,
                None => Command::Run(RunCmd { agent: None, args: self.run }),
            },
    {
        let command: Command = match self.command {
            Some(c) => c,
            None => Command::Run(RunCmd { agent: None, args: self.run }),
        };
        (command, self.config)
    }
}

/// One `run` or `resume` invocation with the verb already decided.
pub struct Invocation {
    /// The `agents:` entry named on the command line; `None` = the default one.
    pub agent: Option<String>,
    /// The session to start from, when the verb was `resume`.
    pub resume: Option<Resume>,
    /// The config file given by name.
    pub config: Option<String>,
    /// The run flags.
    pub args: RunArgs,
}

/// Which session was meant.
pub enum Resume {
    /// The picker chooses.
    Pick,
    /// That id, or any unique prefix of one.
    Id(String),
}

impl Invocation {
    /// `iota [run [<agent>]]`.
    pub fn of_run(cmd: RunCmd, config: Option<String>) -> (r: Invocation)
        ensures
            r.agent == cmd.agent,
            r.resume is None,
            r.config == config,
            r.args == cmd.args,
    {
        Invocation { agent: cmd.agent, resume: None, config, args: cmd.args }
    }

    /// `iota resume [<id>]`. A blank id is the picker.
    pub fn of_resume(cmd: ResumeCmd, config: Option<String>) -> (r: Invocation)
        ensures
            r.agent is None,
            r.config == config,
            r.args == cmd.args,
            match r.resume {
                Some(Resume::Id(id)) => cmd.id matches Some(typed) && id@ == trimmed(typed@)
                    && id@.len() > 0,
                Some(Resume::Pick) => cmd.id matches Some(typed) ==> trimmed(typed@).len() == 0,
                None => false,
            },
    {
        let resume: Resume = match cmd.id {
            Some(typed) => {
                let id: String = trim(typed.as_str());
                if id.as_str().is_empty() {
                    Resume::Pick
                } else {
                    Resume::Id(id)
                }
            },
            None => Resume::Pick,
        };
        Invocation { agent: None, resume: Some(resume), config, args: cmd.args }
    }
}

} // verus!
