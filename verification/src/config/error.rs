//! Why a configuration is refused.

use vstd::prelude::*;
use vstd::string::*;

use crate::provider::{kind_name, ProviderKind};
use crate::text::{debug_text, own, quoted};

verus! {

/// Config-level failures that abort a run.
pub enum ConfigError {
    /// A failure that belongs to ONE file of the stack.
    File {
        /// The file as it was found.
        path: String,
        /// What is wrong inside it.
        source: Box<ConfigError>,
    },
    /// A key that does not belong where it was written: another layer's, retired, or unknown.
    Key {
        /// The coordinate the key was written at.
        at: String,
        /// Which layer owns it, or what replaced it.
        message: String,
    },
    /// The document could not be decoded.
    Parse(String),
    /// `system_file:` could not be read.
    SystemFile(String),
    /// An agent's `mcp_servers:` names a server the top-level map does not define.
    UnknownMcpServer(String),
    /// A `models:` entry is malformed or points nowhere.
    Model(String, String),
    /// An `agents:` entry is malformed or points nowhere.
    Agent(String, String),
    /// An `mcp_servers:` entry asks for something its transport cannot do.
    McpServer(String, String),
    /// A `defer_mode:` that the dialect of its model's provider cannot speak.
    DeferMode {
        /// The `models:` entry.
        model: String,
        /// The mode as written.
        mode: String,
        /// The dialect it landed on.
        kind: ProviderKind,
    },
}

/// What a [`ConfigError`] says.
pub enum ConfigErrorView {
    File(Seq<char>, Box<ConfigErrorView>),
    Key(Seq<char>, Seq<char>),
    Parse(Seq<char>),
    SystemFile(Seq<char>),
    UnknownMcpServer(Seq<char>),
    Model(Seq<char>, Seq<char>),
    Agent(Seq<char>, Seq<char>),
    McpServer(Seq<char>, Seq<char>),
    DeferMode(Seq<char>, Seq<char>, ProviderKind),
}

/// What an error says.
pub open spec fn error_view(e: ConfigError) -> ConfigErrorView
    decreases e,
{
    match e {
        ConfigError::File { path, source } => ConfigErrorView::File(
            path@,
            Box::new(error_view(*source)),
        ),
        ConfigError::Key { at, message } => ConfigErrorView::Key(at@, message@),
        ConfigError::Parse(m) => ConfigErrorView::Parse(m@),
        ConfigError::SystemFile(m) => ConfigErrorView::SystemFile(m@),
        ConfigError::UnknownMcpServer(n) => ConfigErrorView::UnknownMcpServer(n@),
        ConfigError::Model(n, m) => ConfigErrorView::Model(n@, m@),
        ConfigError::Agent(n, m) => ConfigErrorView::Agent(n@, m@),
        ConfigError::McpServer(n, m) => ConfigErrorView::McpServer(n@, m@),
        ConfigError::DeferMode { model, mode, kind } => ConfigErrorView::DeferMode(
            model@,
            mode@,
            kind,
        ),
    }
}

impl View for ConfigError {
    type V = ConfigErrorView;

    open spec fn view(&self) -> ConfigErrorView {
        error_view(*self)
    }
}

/// The text of an error.
pub open spec fn error_text(e: ConfigErrorView) -> Seq<char>
    decreases e,
{
    match e {
        ConfigErrorView::File(path, source) => "config "@ + path + ": "@ + error_text(*source),
        ConfigErrorView::Key(at, message) => at + ": "@ + message,
        ConfigErrorView::Parse(m) => m,
        ConfigErrorView::SystemFile(m) => "system_file: "@ + m,
        ConfigErrorView::UnknownMcpServer(n) => "mcp_servers: "@ + debug_text(n)
            + " is not defined under the top-level mcp_servers"@,
        ConfigErrorView::Model(n, m) => "models."@ + n + ": "@ + m,
        ConfigErrorView::Agent(n, m) => "agents."@ + n + ": "@ + m,
        ConfigErrorView::McpServer(n, m) => "mcp_servers."@ + n + ": "@ + m,
        ConfigErrorView::DeferMode(model, mode, kind) => "models."@ + model + ": defer_mode "@
            + debug_text(mode) + " does not apply to provider type "@ + kind_name(kind)
            + " (see docs/design/tool-defer.md)"@,
    }
}

/// `lead`, then `name`, then `": "`, then `rest`.
fn coordinate(lead: &str, name: &str, rest: &str) -> (r: String)
    ensures
        r@ == lead@ + name@ + ": "@ + rest@,
{
    let mut m: String = own(lead);
    m.append(name);
    m.append(": ");
    m.append(rest);
    m
}

impl ConfigError {
    /// The text of the error.
    pub fn message(&self) -> (r: String)
        ensures
            r@ == error_text(self@),
        decreases self,
    {
        match self {
            ConfigError::File { path, source } => {
                let inner: String = source.message();
                coordinate("config ", path.as_str(), inner.as_str())
            },
            ConfigError::Key { at, message } => {
                let mut m: String = at.clone();
                m.append(": ");
                m.append(message.as_str());
                m
            },
            ConfigError::Parse(m) => m.clone(),
            ConfigError::SystemFile(e) => {
                let mut m: String = own("system_file: ");
                m.append(e.as_str());
                m
            },
            ConfigError::UnknownMcpServer(n) => {
                let mut m: String = own("mcp_servers: ");
                m.append(quoted(n.as_str()).as_str());
                m.append(" is not defined under the top-level mcp_servers");
                m
            },
            ConfigError::Model(n, e) => coordinate("models.", n.as_str(), e.as_str()),
            ConfigError::Agent(n, e) => coordinate("agents.", n.as_str(), e.as_str()),
            ConfigError::McpServer(n, e) => coordinate("mcp_servers.", n.as_str(), e.as_str()),
            ConfigError::DeferMode { model, mode, kind } => {
                let mut m: String = own("models.");
                m.append(model.as_str());
                m.append(": defer_mode ");
                m.append(quoted(mode.as_str()).as_str());
                m.append(" does not apply to provider type ");
                m.append(kind.as_str());
                m.append(" (see docs/design/tool-defer.md)");
                m
            },
        }
    }
}

} // verus!
