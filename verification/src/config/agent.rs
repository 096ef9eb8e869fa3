//! `agents.<name>` — the USAGE layer: the models this agent may run, the prompt it drives them with, the tools
//! and MCP servers it loads, and the session-shaped switches.

use vstd::prelude::*;
use vstd::string::*;

use crate::config::error::ConfigError;
use crate::config::model::{copy_refs, refs, ModelRef, RefView};
use crate::double::Double;
use crate::map::{Duplicate, StrMap};
use crate::text::{copy_strs, lossy_text, own, read_lossy, strs};
use crate::yaml::{Node, Yaml};

verus! {

/// One `agents.<name>` entry.
pub struct AgentConfig {
    /// `models:` — the candidate set, best first: entry names, inline `provider:id`s and `provider:*`
    /// wildcards.
    pub models: Vec<ModelRef>,
    /// `system:` — an inline system prompt (wins over `system_file`).
    pub system: String,
    /// `system_file:` — a file holding the system prompt.
    pub system_file: String,
    /// `tools:` — RAW set values; key presence enables the set.
    pub tools: StrMap<Yaml>,
    /// `mcp_servers:` — which top-level servers this agent loads: `None` = all, `Some([])` = none, names =
    /// that subset.
    pub mcp_servers: Option<Vec<String>>,
    /// `workspace:` — the project overlay and the skills toolset.
    pub workspace: bool,
    /// `no_save:` — start ephemeral.
    pub no_save: bool,
    /// `notify:` — the attention ping; absent means ON.
    pub notify: Option<bool>,
    /// `description:` — what this agent is FOR.
    pub description: String,
    /// `context_window:` — overrides the model's own.
    pub context_window: String,
    /// `effort:` — overrides the model's default.
    pub effort: String,
    /// `temperature:` — overrides the model's default.
    pub temperature: Option<Double>,
    /// `top_p:` — overrides the model's default.
    pub top_p: Option<Double>,
}

/// What an [`AgentConfig`] says.
pub struct AgentView {
    pub models: Seq<RefView>,
    pub system: Seq<char>,
    pub system_file: Seq<char>,
    pub tools: Map<Seq<char>, Node>,
    pub mcp_servers: Option<Seq<Seq<char>>>,
    pub workspace: bool,
    pub no_save: bool,
    pub notify: Option<bool>,
    pub description: Seq<char>,
    pub context_window: Seq<char>,
    pub effort: Seq<char>,
    pub temperature: Option<Double>,
    pub top_p: Option<Double>,
}

/// The views of an optional list of texts.
pub open spec fn opt_strs(o: Option<Vec<String>>) -> Option<Seq<Seq<char>>> {
    match o {
        Some(v) => Some(strs(v@)),
        None => None,
    }
}

impl View for AgentConfig {
    type V = AgentView;

    open spec fn view(&self) -> AgentView {
        AgentView {
            models: refs(self.models@),
            system: self.system@,
            system_file: self.system_file@,
            tools: self.tools@,
            mcp_servers: opt_strs(self.mcp_servers),
            workspace: self.workspace,
            no_save: self.no_save,
            notify: self.notify,
            description: self.description@,
            context_window: self.context_window@,
            effort: self.effort@,
            temperature: self.temperature,
            top_p: self.top_p,
        }
    }
}

/// The agent that says nothing.
pub open spec fn blank_agent() -> AgentView {
    AgentView {
        models: Seq::empty(),
        system: Seq::empty(),
        system_file: Seq::empty(),
        tools: Map::empty(),
        mcp_servers: None,
        workspace: false,
        no_save: false,
        notify: None,
        description: Seq::empty(),
        context_window: Seq::empty(),
        effort: Seq::empty(),
        temperature: None,
        top_p: None,
    }
}

impl Default for AgentConfig {
    /// The agent that says nothing.
    fn default() -> (r: AgentConfig)
        ensures
            r@ == blank_agent(),
    {
        let r = AgentConfig {
            models: Vec::new(),
            system: String::new(),
            system_file: String::new(),
            tools: StrMap::new(),
            mcp_servers: None,
            workspace: false,
            no_save: false,
            notify: None,
            description: String::new(),
            context_window: String::new(),
            effort: String::new(),
            temperature: None,
            top_p: None,
        };
        assert(r@.models =~= Seq::<RefView>::empty());
        r
    }
}

impl Duplicate for AgentConfig {
    fn duplicate(&self) -> (r: AgentConfig) {
        AgentConfig {
            models: copy_refs(&self.models),
            system: self.system.clone(),
            system_file: self.system_file.clone(),
            tools: self.tools.duplicate(),
            mcp_servers: match &self.mcp_servers {
                Some(v) => Some(copy_strs(v)),
                None => None,
            },
            workspace: self.workspace,
            no_save: self.no_save,
            notify: self.notify,
            description: self.description.clone(),
            context_window: self.context_window.clone(),
            effort: self.effort.clone(),
            temperature: self.temperature,
            top_p: self.top_p,
        }
    }
}

/// Where the system prompt of an agent comes from.
pub enum SystemSource {
    /// The prompt itself.
    Inline(String),
    /// A file that holds it, to be read as it is.
    File(String),
}

impl AgentConfig {
    /// Where the system prompt comes from: inline `system` wins; else `system_file`; neither is the empty
    /// prompt.
    pub fn system_source(&self) -> (r: SystemSource)
        ensures
            match r {
                SystemSource::Inline(t) => (self@.system.len() > 0 || self@.system_file.len() == 0)
                    && t@ == self@.system,
                SystemSource::File(p) => self@.system.len() == 0 && self@.system_file.len() > 0
                    && p@ == self@.system_file,
            },
    {
        if !self.system.as_str().is_empty() || self.system_file.as_str().is_empty() {
            SystemSource::Inline(self.system.clone())
        } else {
            SystemSource::File(self.system_file.clone())
        }
    }

    /// The system prompt, given what reading the file named by [`AgentConfig::system_source`] gave: its
    /// bytes, or the text of the failure. Without such a file the read is not looked at.
    pub fn resolve_system(&self, read: Result<Vec<u8>, String>) -> (r: Result<String, ConfigError>)
        ensures
            self@.system.len() > 0 || self@.system_file.len() == 0 ==> (r matches Ok(t) && t@
                == self@.system),
            self@.system.len() == 0 && self@.system_file.len() > 0 ==> match read {
                Ok(data) => r matches Ok(t) && t@ == lossy_text(data@),
                Err(e) => r matches Err(ConfigError::SystemFile(m)) && m@ == "open "@
                    + self@.system_file + ": "@ + e@,
            },
    {
        match self.system_source() {
            SystemSource::Inline(t) => Ok(t),
            SystemSource::File(path) => match read {
                Ok(data) => Ok(read_lossy(data.as_slice())),
                Err(e) => {
                    let mut m: String = own("open ");
                    m.append(path.as_str());
                    m.append(": ");
                    m.append(e.as_str());
                    Err(ConfigError::SystemFile(m))
                },
            },
        }
    }
}

} // verus!
