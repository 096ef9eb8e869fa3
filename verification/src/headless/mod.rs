//! The headless (non-interactive) run: what it prints, and why it failed.

use vstd::prelude::*;

use crate::text::{own, same, trim, trimmed};

pub mod error;

use crate::headless::error::ChatError;

verus! {

/// `--output-format`: the bare reply (`text`) or the JSON run report (`json`).
#[derive(Clone, Copy, Debug, PartialEq, Eq, Structural)]
pub enum OutputFormat {
    /// The reply, image lines and image errors, nothing else (the default).
    Text,
    /// One report object, written on success AND on failure.
    Json,
}

impl Default for OutputFormat {
    fn default() -> (r: OutputFormat)
        ensures
            r == OutputFormat::Text,
    {
        OutputFormat::Text
    }
}

/// The flag spelling of a format.
pub open spec fn format_name(f: OutputFormat) -> Seq<char> {
    match f {
        OutputFormat::Text => "text"@,
        OutputFormat::Json => "json"@,
    }
}

/// The format a spelling stands for, white space around it left aside; the empty spelling is `text`.
pub open spec fn format_named(s: Seq<char>) -> Option<OutputFormat> {
    let t = trimmed(s);
    if t.len() == 0 || t == "text"@ {
        Some(OutputFormat::Text)
    } else if t == "json"@ {
        Some(OutputFormat::Json)
    } else {
        None
    }
}

impl OutputFormat {
    /// The flag spelling.
    pub fn as_str(self) -> (r: &'static str)
        ensures
            r@ == format_name(self),
    {
        match self {
            OutputFormat::Text => "text",
            OutputFormat::Json => "json",
        }
    }
}

/// Reads a flag spelling; the error carries it as it was given.
pub fn parse_output_format(s: &str) -> (r: Result<OutputFormat, ChatError>)
    ensures
        match format_named(s@) {
            Some(f) => r == Ok::<OutputFormat, ChatError>(f),
            None => r matches Err(ChatError::BadFormat(t)) && t@ == s@,
        },
{
    let t: String = trim(s);
    if t.as_str().is_empty() || same(t.as_str(), "text") {
        return Ok(OutputFormat::Text);
    }
    if same(t.as_str(), "json") {
        return Ok(OutputFormat::Json);
    }
    Err(ChatError::BadFormat(own(s)))
}

/// Agent mode, with the directories it works from.
pub struct AgentOptions {
    /// Whether agent mode is on.
    pub enabled: bool,
    /// The project root the overlay chain starts from.
    pub root: String,
    /// The working directory the chain ends at; `None` → `root`.
    pub cwd: Option<String>,
    /// The user's home directory; `None` → no home-level skills.
    pub home: Option<String>,
}

impl Default for AgentOptions {
    /// Agent mode off.
    fn default() -> (r: AgentOptions)
        ensures
            !r.enabled,
            r.root@.len() == 0,
            r.cwd is None,
            r.home is None,
    {
        AgentOptions { enabled: false, root: String::new(), cwd: None, home: None }
    }
}

} // verus!
