//! The flags of the one-command line, and which of them a headless run refuses.

use vstd::prelude::*;

use crate::double::Double;
use crate::text::{trim, trimmed};

verus! {

/// `iota [provider] [flags]`.
pub struct Cli {
    /// Provider type or config alias.
    pub provider: Option<String>,
    /// The API key.
    pub key: Option<String>,
    /// The base URL.
    pub url: Option<String>,
    /// The model name.
    pub model: Option<String>,
    /// The temperature.
    pub temperature: Option<Double>,
    /// The single message.
    pub message: Option<String>,
    /// The system prompt.
    pub system: Option<String>,
    /// Enter the system prompt interactively.
    pub system_input: bool,
    /// List instead of running.
    pub list: bool,
    /// The config file.
    pub config: Option<String>,
    /// Extra MCP servers.
    pub mcp: Vec<String>,
    /// The session to resume; a blank one wants the picker.
    pub resume: Option<String>,
    /// Start ephemeral.
    pub no_save: bool,
    /// The turn budget.
    pub max_turns: i64,
    /// The output format.
    pub output_format: Option<String>,
    /// The context window.
    pub context_window: Option<String>,
    /// Agent mode.
    pub agent: bool,
}

/// Why a headless run refuses the flags.
pub enum Refusal {
    /// The flag is for interactive runs only.
    UnsupportedFlag(&'static str),
    /// A resume that wants the picker.
    ResumeNeedsId,
}

impl Cli {
    /// Whether a headless run would accept these flags. A resume with an id passes.
    pub fn reject_unsupported(&self) -> (r: Result<(), Refusal>)
        ensures
            match r {
                Err(Refusal::UnsupportedFlag(f)) => {
                    ||| self.system_input && f@ == "-S/--system-input"@
                    ||| !self.system_input && self.no_save && f@ == "--no-save"@
                },
                Err(Refusal::ResumeNeedsId) => !self.system_input && !self.no_save && (
                self.resume matches Some(v) && trimmed(v@).len() == 0),
                Ok(_) => !self.system_input && !self.no_save && (self.resume matches Some(v)
                    ==> trimmed(v@).len() > 0),
            },
    {
        if self.system_input {
            return Err(Refusal::UnsupportedFlag("-S/--system-input"));
        }
        if self.no_save {
            return Err(Refusal::UnsupportedFlag("--no-save"));
        }
        if let Some(v) = &self.resume {
            if trim(v.as_str()).as_str().is_empty() {
                return Err(Refusal::ResumeNeedsId);
            }
        }
        Ok(())
    }
}

} // verus!
