//! Why the command failed, in the three stages a run goes through: what the invocation itself got wrong, what
//! the run could not be set up with, and what went wrong once it ran.

use vstd::prelude::*;
use vstd::string::*;

use crate::cmd::window::WindowSizeError;
use crate::config::edit::EditError;
use crate::config::error::{error_text, ConfigError};
use crate::double::Double;
use crate::headless::error::ChatError;
use crate::text::{debug_text, join, joined, own, quoted, strs};

verus! {

/// The invocation itself: a flag, a name or a value that was read and is refused.
pub enum ArgsError {
    /// An interactive-only flag was given headlessly.
    UnsupportedFlag(&'static str),
    /// A headless resume without an id.
    ResumeIdRequired,
    /// No agent named and no default to fall back to.
    NoAgent,
    /// The name is not an `agents:` entry.
    UnknownAgent {
        /// The name as typed.
        name: String,
        /// Every configured agent, in name order.
        agents: Vec<String>,
    },
    /// Standard input could not be read.
    Stdin(String),
    /// Standard input held only white space.
    EmptyStdin,
    /// The message is empty.
    MessageEmpty,
    /// A headless run without a model.
    ModelRequired {
        /// The agent the run resolved to.
        agent: String,
    },
    /// `--output-format` without a message.
    OutputFormatWithoutMessage,
    /// An empty `--mcp`.
    McpFlag,
    /// A name for a listing that takes none.
    ListTakesNoName(String),
    /// `--no-save` with a resume.
    NoSaveWithResume,
    /// `--scope` beside a file given by name.
    McpScopeWithConfig,
    /// Neither form of a server, or both.
    McpAddTarget(&'static str),
    /// A flag of the other form.
    McpAddFlag {
        /// The flag as typed.
        flag: &'static str,
        /// The form it belongs to.
        form: &'static str,
    },
    /// Login flags beside `--auth none`.
    McpClientFlagsWithNone,
    /// A secret without an id, or a variable name that is none.
    McpClientSecretEnv(String),
    /// A redirect port without an id.
    McpRedirectPortNeedsClientId,
    /// A server name that is not a plain word.
    McpName(String),
    /// A URL without a scheme.
    McpUrlScheme(String),
    /// A header that is none.
    McpBadHeader(String),
    /// A variable assignment that is none.
    McpBadEnv(String),
    /// A value of a shared file that is not a reference.
    McpProjectSecret(String),
}

/// The text about the form of a server.
pub open spec fn add_target_text(which: Seq<char>) -> Seq<char> {
    if which == "both"@ {
        "mcp add: give a command after `--` or --url, not both"@
    } else {
        "mcp add: a server needs a command after `--`, or --url"@
    }
}

/// The text about the form of a server.
pub fn mcp_add_target(which: &str) -> (r: &'static str)
    ensures
        r@ == add_target_text(which@),
{
    if crate::text::same(which, "both") {
        "mcp add: give a command after `--` or --url, not both"
    } else {
        "mcp add: a server needs a command after `--`, or --url"
    }
}

/// The hint beside an unknown agent: the agents there are, or where to add one.
pub open spec fn agent_hint_text(agents: Seq<Seq<char>>) -> Seq<char> {
    if agents.len() == 0 {
        "\n  no agents are configured — add an `agents:` entry to your config (`iota config path` names the file)"@
    } else {
        "\n  configured agents: "@ + joined(agents, ", "@)
    }
}

/// The hint beside an unknown agent.
pub fn agent_hint(agents: &Vec<String>) -> (r: String)
    ensures
        r@ == agent_hint_text(strs(agents@)),
{
    if agents.len() == 0 {
        return own(
            "\n  no agents are configured — add an `agents:` entry to your config (`iota config path` names the file)",
        );
    }
    let mut m: String = own("\n  configured agents: ");
    m.append(join(agents, ", ").as_str());
    m
}

/// The hint beside an unknown server: the servers there are, or that there are none.
pub open spec fn server_hint_text(servers: Seq<Seq<char>>) -> Seq<char> {
    if servers.len() == 0 {
        " (none are configured)"@
    } else {
        "\n  configured servers: "@ + joined(servers, ", "@)
    }
}

/// The hint beside an unknown server.
pub fn mcp_server_hint(servers: &Vec<String>) -> (r: String)
    ensures
        r@ == server_hint_text(strs(servers@)),
{
    if servers.len() == 0 {
        return own(" (none are configured)");
    }
    let mut m: String = own("\n  configured servers: ");
    m.append(join(servers, ", ").as_str());
    m
}

/// A lead and a quoted text.
fn lead_quoted(lead: &str, s: &str) -> (r: String)
    ensures
        r@ == lead@ + debug_text(s@),
{
    let mut m: String = own(lead);
    m.append(quoted(s).as_str());
    m
}

/// A lead and a text.
fn lead_text(lead: &str, s: &str) -> (r: String)
    ensures
        r@ == lead@ + s@,
{
    let mut m: String = own(lead);
    m.append(s);
    m
}

impl ArgsError {
    /// The text of the error.
    pub open spec fn text(&self) -> Seq<char> {
        match *self {
            ArgsError::UnsupportedFlag(f) => "flag "@ + f@ + " is not supported in headless mode"@,
            ArgsError::ResumeIdRequired => "iota resume needs a session id with -m (the picker is interactive): try `iota list sessions`"@,
            ArgsError::NoAgent => "no agent to run: name one with `iota run <agent>` (see `iota list agents`), or add an `agents.default` entry to your config (`iota config path` names the file)"@,
            ArgsError::UnknownAgent { name, agents } => "unknown agent "@ + debug_text(name@)
                + agent_hint_text(strs(agents@)),
            ArgsError::Stdin(e) => "failed to read from stdin: "@ + e@,
            ArgsError::EmptyStdin => "no message provided via stdin"@,
            ArgsError::MessageEmpty => "--message must not be empty"@,
            ArgsError::ModelRequired { agent } => "no model chosen: set agents."@ + agent@
                + ".model or pass -M"@,
            ArgsError::OutputFormatWithoutMessage => "--output-format applies to -m runs only"@,
            ArgsError::McpFlag => "--mcp: empty server specification"@,
            ArgsError::ListTakesNoName(w) => "iota list "@ + w@
                + " takes no argument (only `iota list models <agent>` does)"@,
            ArgsError::NoSaveWithResume => "--no-save cannot be combined with iota resume"@,
            ArgsError::McpScopeWithConfig => "--scope does not apply with -c: the file given is the only scope"@,
            ArgsError::McpAddTarget(which) => add_target_text(which@),
            ArgsError::McpAddFlag { flag, form } => "mcp add: "@ + flag@ + " applies to "@ + form@
                + " servers only"@,
            ArgsError::McpClientFlagsWithNone => "mcp add: --client-id, --client-secret-env and --redirect-port describe an OAuth login, which --auth none rules out"@,
            ArgsError::McpClientSecretEnv(v) => "mcp add: --client-secret-env wants the NAME of an environment variable, beside --client-id; got "@
                + debug_text(v@),
            ArgsError::McpRedirectPortNeedsClientId => "mcp add: --redirect-port goes with --client-id (a pre-registered client's redirect URI must match exactly; a registered-on-the-spot or metadata-document client gets a random port)"@,
            ArgsError::McpName(n) => "mcp add: a server name is letters, digits, `_`, `-` and `.`: "@
                + debug_text(n@),
            ArgsError::McpUrlScheme(u) => "mcp add: --url wants http:// or https://, got "@
                + debug_text(u@),
            ArgsError::McpBadHeader(h) => "mcp add: --header wants 'Name: value', got "@
                + debug_text(h@),
            ArgsError::McpBadEnv(e) => "mcp add: -e wants NAME=value, got "@ + debug_text(e@),
            ArgsError::McpProjectSecret(at) => "mcp: a project-scope value must reference an environment variable (${NAME}), not the secret itself: "@
                + at@,
        }
    }

    /// The text of the error.
    pub fn message(&self) -> (r: String)
        ensures
            r@ == self.text(),
    {
        match self {
            ArgsError::UnsupportedFlag(f) => {
                let mut m: String = lead_text("flag ", f);
                m.append(" is not supported in headless mode");
                m
            },
            ArgsError::ResumeIdRequired => own(
                "iota resume needs a session id with -m (the picker is interactive): try `iota list sessions`",
            ),
            ArgsError::NoAgent => own(
                "no agent to run: name one with `iota run <agent>` (see `iota list agents`), or add an `agents.default` entry to your config (`iota config path` names the file)",
            ),
            ArgsError::UnknownAgent { name, agents } => {
                let mut m: String = lead_quoted("unknown agent ", name.as_str());
                m.append(agent_hint(agents).as_str());
                m
            },
            ArgsError::Stdin(e) => lead_text("failed to read from stdin: ", e.as_str()),
            ArgsError::EmptyStdin => own("no message provided via stdin"),
            ArgsError::MessageEmpty => own("--message must not be empty"),
            ArgsError::ModelRequired { agent } => {
                let mut m: String = lead_text("no model chosen: set agents.", agent.as_str());
                m.append(".model or pass -M");
                m
            },
            ArgsError::OutputFormatWithoutMessage => own("--output-format applies to -m runs only"),
            ArgsError::McpFlag => own("--mcp: empty server specification"),
            ArgsError::ListTakesNoName(w) => {
                let mut m: String = lead_text("iota list ", w.as_str());
                m.append(" takes no argument (only `iota list models <agent>` does)");
                m
            },
            ArgsError::NoSaveWithResume => own("--no-save cannot be combined with iota resume"),
            ArgsError::McpScopeWithConfig => own(
                "--scope does not apply with -c: the file given is the only scope",
            ),
            ArgsError::McpAddTarget(which) => own(mcp_add_target(which)),
            ArgsError::McpAddFlag { flag, form } => {
                let mut m: String = lead_text("mcp add: ", flag);
                m.append(" applies to ");
                m.append(form);
                m.append(" servers only");
                m
            },
            ArgsError::McpClientFlagsWithNone => own(
                "mcp add: --client-id, --client-secret-env and --redirect-port describe an OAuth login, which --auth none rules out",
            ),
            ArgsError::McpClientSecretEnv(v) => lead_quoted(
                "mcp add: --client-secret-env wants the NAME of an environment variable, beside --client-id; got ",
                v.as_str(),
            ),
            ArgsError::McpRedirectPortNeedsClientId => own(
                "mcp add: --redirect-port goes with --client-id (a pre-registered client's redirect URI must match exactly; a registered-on-the-spot or metadata-document client gets a random port)",
            ),
            ArgsError::McpName(n) => lead_quoted(
                "mcp add: a server name is letters, digits, `_`, `-` and `.`: ",
                n.as_str(),
            ),
            ArgsError::McpUrlScheme(u) => lead_quoted(
                "mcp add: --url wants http:// or https://, got ",
                u.as_str(),
            ),
            ArgsError::McpBadHeader(h) => lead_quoted(
                "mcp add: --header wants 'Name: value', got ",
                h.as_str(),
            ),
            ArgsError::McpBadEnv(e) => lead_quoted(
                "mcp add: -e wants NAME=value, got ",
                e.as_str(),
            ),
            ArgsError::McpProjectSecret(at) => lead_text(
                "mcp: a project-scope value must reference an environment variable (${NAME}), not the secret itself: ",
                at.as_str(),
            ),
        }
    }
}

/// What the run could not be set up with.
pub enum SetupError {
    /// A failure of the session store, with its text.
    Session(String),
    /// No key in the environment and none in the config; names both places.
    ApiKeyRequired {
        /// The variable of the provider type.
        env: String,
        /// The `providers:` entry.
        provider: String,
    },
    /// The configured temperature is out of its range.
    ConfigTemperature(Double),
    /// The configured effort is no level.
    ConfigEffort(String),
    /// The configured nucleus is out of its range.
    ConfigTopP(Double),
    /// The working directory is unknown, with the text of the failure.
    Cwd(String),
    /// The type is not a built-in one.
    UnknownType(String),
    /// The provider could not be built, with its text.
    Provider(String),
    /// A failure of the config.
    Config(ConfigError),
    /// An interactive run without a terminal.
    NotATerminal,
    /// A resume that found nothing, or that was walked away from.
    NoSessionToResume,
    /// A context window that is none.
    ContextWindow {
        /// Which layer wrote it.
        label: String,
        /// What is wrong with it.
        source: WindowSizeError,
    },
    /// The sessions could not be listed, with the text of the failure.
    ListSessions(String),
    /// The file to write exists.
    ConfigExists(String),
    /// There is no home directory to write into.
    NoHome,
    /// A session could not be created, with the text of the failure.
    CreateSession(String),
    /// The servers of a file could not be read or rewritten.
    McpEdit(EditError),
    /// The file declares the name already.
    McpExists {
        /// The name as typed.
        name: String,
        /// The file.
        file: String,
    },
    /// No file declares the name.
    McpUnknown {
        /// The name as typed.
        name: String,
        /// Every declared server, in name order.
        servers: Vec<String>,
    },
    /// The file of a scope does not declare the name.
    McpNotInScope {
        /// The name as typed.
        name: String,
        /// The file.
        file: String,
    },
    /// A server no login applies to.
    McpNoLogin {
        /// The name as typed.
        name: String,
        /// The sentence after the name.
        reason: &'static str,
    },
    /// There is no home directory to keep a token in.
    McpNoHomeForToken,
    /// More than one file declares the name.
    McpAmbiguous {
        /// The name as typed.
        name: String,
        /// The files, in merge order.
        files: Vec<String>,
    },
}

impl SetupError {
    /// The text of the error; `number` is how its number prints, for an error that carries one.
    pub open spec fn text(&self, number: Seq<char>) -> Seq<char> {
        match *self {
            SetupError::Session(e) => e@,
            SetupError::ApiKeyRequired { env, provider } => "API key is required: set "@ + env@
                + " or providers."@ + provider@ + ".key in your config"@,
            SetupError::ConfigTemperature(_) => "config temperature "@ + number
                + ": want 0.0-2.0"@,
            SetupError::ConfigEffort(e) => "config effort "@ + debug_text(e@)
                + ": want low|medium|high|xhigh|max"@,
            SetupError::ConfigTopP(_) => "config top_p "@ + number + ": want 0.0-1.0"@,
            SetupError::Cwd(e) => "failed to resolve working directory: "@ + e@,
            SetupError::UnknownType(e) => e@,
            SetupError::Provider(e) => e@,
            SetupError::Config(e) => error_text(e@),
            SetupError::NotATerminal => "interactive mode requires a terminal; use -m/--message for piped input"@,
            SetupError::NoSessionToResume => "no session to resume"@,
            SetupError::ContextWindow { label, source } => label@ + ": "@ + source.text(),
            SetupError::ListSessions(e) => "failed to list sessions: "@ + e@,
            SetupError::ConfigExists(p) => p@
                + " already exists (use -c <path> to write somewhere else)"@,
            SetupError::NoHome => "$HOME is not defined: use -c <path> to say where the config should go"@,
            SetupError::CreateSession(e) => "failed to create session: "@ + e@,
            SetupError::McpEdit(e) => e.text(),
            SetupError::McpExists { name, file } => "mcp: a server named "@ + debug_text(name@)
                + " already exists in "@ + file@ + " (remove it first, or pick another name)"@,
            SetupError::McpUnknown { name, servers } => "mcp: no server named "@ + debug_text(
                name@,
            ) + server_hint_text(strs(servers@)),
            SetupError::McpNotInScope { name, file } => "mcp: no server named "@ + debug_text(
                name@,
            ) + " in "@ + file@,
            SetupError::McpNoLogin { name, reason } => "mcp: "@ + debug_text(name@) + " "@
                + reason@,
            SetupError::McpNoHomeForToken => "$HOME is not defined: there is nowhere to keep the token"@,
            SetupError::McpAmbiguous { name, files } => "mcp: "@ + debug_text(name@)
                + " is declared in more than one file; say which with --scope:\n  "@ + joined(
                strs(files@),
                "\n  "@,
            ),
        }
    }

    /// The text of the error.
    pub fn message(&self, number: &str) -> (r: String)
        ensures
            r@ == self.text(number@),
    {
        match self {
            SetupError::Session(e) => e.clone(),
            SetupError::ApiKeyRequired { env, provider } => {
                let mut m: String = lead_text("API key is required: set ", env.as_str());
                m.append(" or providers.");
                m.append(provider.as_str());
                m.append(".key in your config");
                m
            },
            SetupError::ConfigTemperature(_) => {
                let mut m: String = lead_text("config temperature ", number);
                m.append(": want 0.0-2.0");
                m
            },
            SetupError::ConfigEffort(e) => {
                let mut m: String = lead_quoted("config effort ", e.as_str());
                m.append(": want low|medium|high|xhigh|max");
                m
            },
            SetupError::ConfigTopP(_) => {
                let mut m: String = lead_text("config top_p ", number);
                m.append(": want 0.0-1.0");
                m
            },
            SetupError::Cwd(e) => lead_text("failed to resolve working directory: ", e.as_str()),
            SetupError::UnknownType(e) => e.clone(),
            SetupError::Provider(e) => e.clone(),
            SetupError::Config(e) => e.message(),
            SetupError::NotATerminal => own(
                "interactive mode requires a terminal; use -m/--message for piped input",
            ),
            SetupError::NoSessionToResume => own("no session to resume"),
            SetupError::ContextWindow { label, source } => {
                let mut m: String = label.clone();
                m.append(": ");
                m.append(source.message().as_str());
                m
            },
            SetupError::ListSessions(e) => lead_text("failed to list sessions: ", e.as_str()),
            SetupError::ConfigExists(p) => {
                let mut m: String = p.clone();
                m.append(" already exists (use -c <path> to write somewhere else)");
                m
            },
            SetupError::NoHome => own(
                "$HOME is not defined: use -c <path> to say where the config should go",
            ),
            SetupError::CreateSession(e) => lead_text("failed to create session: ", e.as_str()),
            SetupError::McpEdit(e) => e.message(),
            SetupError::McpExists { name, file } => {
                let mut m: String = lead_quoted("mcp: a server named ", name.as_str());
                m.append(" already exists in ");
                m.append(file.as_str());
                m.append(" (remove it first, or pick another name)");
                m
            },
            SetupError::McpUnknown { name, servers } => {
                let mut m: String = lead_quoted("mcp: no server named ", name.as_str());
                m.append(mcp_server_hint(servers).as_str());
                m
            },
            SetupError::McpNotInScope { name, file } => {
                let mut m: String = lead_quoted("mcp: no server named ", name.as_str());
                m.append(" in ");
                m.append(file.as_str());
                m
            },
            SetupError::McpNoLogin { name, reason } => {
                let mut m: String = lead_quoted("mcp: ", name.as_str());
                m.append(" ");
                m.append(reason);
                m
            },
            SetupError::McpNoHomeForToken => own(
                "$HOME is not defined: there is nowhere to keep the token",
            ),
            SetupError::McpAmbiguous { name, files } => {
                let mut m: String = lead_quoted("mcp: ", name.as_str());
                m.append(" is declared in more than one file; say which with --scope:\n  ");
                m.append(join(files, "\n  ").as_str());
                m
            },
        }
    }
}

/// What went wrong once the run was under way.
pub enum RunError {
    /// The run loop failed.
    Chat(ChatError),
    /// A signal cancelled the run.
    Interrupted,
    /// The interface failed, with its text.
    Ui(String),
    /// A worker could not be joined, with its text.
    Join(String),
    /// An I/O failure, with its text.
    Io(String),
    /// A login did not finish.
    McpLogin {
        /// The server.
        name: String,
        /// The text of what went wrong.
        source: String,
    },
    /// The login that followed the addition of a server did not finish.
    McpAddLogin {
        /// The server.
        name: String,
        /// The text of what went wrong.
        source: String,
    },
    /// A token could not be forgotten.
    McpLogout {
        /// The server.
        name: String,
        /// The text of the failure.
        source: String,
    },
}

impl RunError {
    /// The text of the error.
    pub open spec fn text(&self) -> Seq<char> {
        match *self {
            RunError::Chat(e) => e.text(),
            RunError::Interrupted => "interrupted"@,
            RunError::Ui(e) => e@,
            RunError::Join(e) => e@,
            RunError::Io(e) => e@,
            RunError::McpLogin { name, source } => "mcp login "@ + name@ + ": "@ + source@,
            RunError::McpAddLogin { name, source } => "mcp login "@ + name@ + ": "@ + source@
                + "\n  Retry with: iota mcp login "@ + name@,
            RunError::McpLogout { name, source } => "mcp logout "@ + name@ + ": "@ + source@,
        }
    }

    /// The text of the error.
    pub fn message(&self) -> (r: String)
        ensures
            r@ == self.text(),
    {
        match self {
            RunError::Chat(e) => e.message(),
            RunError::Interrupted => own("interrupted"),
            RunError::Ui(e) => e.clone(),
            RunError::Join(e) => e.clone(),
            RunError::Io(e) => e.clone(),
            RunError::McpLogin { name, source } => {
                let mut m: String = lead_text("mcp login ", name.as_str());
                m.append(": ");
                m.append(source.as_str());
                m
            },
            RunError::McpAddLogin { name, source } => {
                let mut m: String = lead_text("mcp login ", name.as_str());
                m.append(": ");
                m.append(source.as_str());
                m.append("\n  Retry with: iota mcp login ");
                m.append(name.as_str());
                m
            },
            RunError::McpLogout { name, source } => {
                let mut m: String = lead_text("mcp logout ", name.as_str());
                m.append(": ");
                m.append(source.as_str());
                m
            },
        }
    }
}

/// The command's error: one of the three stages.
pub enum CliError {
    /// The invocation was wrong.
    Args(ArgsError),
    /// The run could not be set up.
    Setup(SetupError),
    /// The run failed.
    Run(RunError),
}

/// The status a program exits with.
pub open spec fn exit_status(r: Result<(), CliError>) -> u8 {
    match r {
        Ok(_) => 0,
        Err(CliError::Run(RunError::Interrupted)) => 130,
        Err(_) => 1,
    }
}

impl CliError {
    /// The text of the error; `number` is how its number prints, for an error that carries one.
    pub open spec fn text(&self, number: Seq<char>) -> Seq<char> {
        match *self {
            CliError::Args(e) => e.text(),
            CliError::Setup(e) => e.text(number),
            CliError::Run(e) => e.text(),
        }
    }

    /// The text of the error.
    pub fn message(&self, number: &str) -> (r: String)
        ensures
            r@ == self.text(number@),
    {
        match self {
            CliError::Args(e) => e.message(),
            CliError::Setup(e) => e.message(number),
            CliError::Run(e) => e.message(),
        }
    }

    /// The number that the error carries, for the program to print.
    pub fn number(&self) -> (r: Option<Double>)
        ensures
            r == match *self {
                CliError::Setup(SetupError::ConfigTemperature(d)) => Some(d),
                CliError::Setup(SetupError::ConfigTopP(d)) => Some(d),
                _ => None,
            },
    {
        match self {
            CliError::Setup(SetupError::ConfigTemperature(d)) => Some(*d),
            CliError::Setup(SetupError::ConfigTopP(d)) => Some(*d),
            _ => None,
        }
    }
}

/// The status a program exits with.
pub fn exit_code(r: &Result<(), CliError>) -> (code: u8)
    ensures
        code == exit_status(*r),
{
    match r {
        Ok(_) => 0,
        Err(CliError::Run(RunError::Interrupted)) => 130,
        Err(_) => 1,
    }
}

} // verus!
