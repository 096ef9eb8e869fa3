//! Why a headless run failed.

use vstd::prelude::*;
use vstd::string::*;

use crate::text::{debug_text, decimal, decimal_of, own, quoted};

verus! {

/// Why a headless run failed.
pub enum ChatError {
    /// The per-loop `--max-turns` cap was hit without a final response.
    LocalCap {
        /// The local cap that was exhausted.
        turns: u32,
    },
    /// The run-wide budget was exhausted.
    SharedCap {
        /// The shared cap that was exhausted.
        turns: u32,
    },
    /// The provider failed; the text is the provider's own.
    Provider(String),
    /// `--output-format` was neither `text` nor `json`.
    BadFormat(String),
    /// The run was cancelled before it finished.
    Interrupted,
    /// Writing the report or the reply failed.
    Io(String),
}

impl ChatError {
    /// The text of the error.
    pub open spec fn text(&self) -> Seq<char> {
        match *self {
            ChatError::LocalCap { turns } => {
                "tool loop reached the --max-turns limit without a final response ("@ + decimal_of(
                    turns as nat,
                ) + " turns)"@
            },
            ChatError::SharedCap { turns } => {
                "tool loop reached the --max-turns limit without a final response ("@ + decimal_of(
                    turns as nat,
                ) + " turns, the whole run's budget)"@
            },
            ChatError::Provider(e) => e@,
            ChatError::BadFormat(s) => "unknown output format "@ + debug_text(s@)
                + " (want text or json)"@,
            ChatError::Interrupted => "interrupted"@,
            ChatError::Io(e) => e@,
        }
    }

    /// The text of the error.
    pub fn message(&self) -> (r: String)
        ensures
            r@ == self.text(),
    {
        match self {
            ChatError::LocalCap { turns } => {
                let mut m: String = own(
                    "tool loop reached the --max-turns limit without a final response (",
                );
                m.append(decimal(*turns as u64).as_str());
                m.append(" turns)");
                m
            },
            ChatError::SharedCap { turns } => {
                let mut m: String = own(
                    "tool loop reached the --max-turns limit without a final response (",
                );
                m.append(decimal(*turns as u64).as_str());
                m.append(" turns, the whole run's budget)");
                m
            },
            ChatError::Provider(e) => e.clone(),
            ChatError::BadFormat(s) => {
                let mut m: String = own("unknown output format ");
                m.append(quoted(s.as_str()).as_str());
                m.append(" (want text or json)");
                m
            },
            ChatError::Interrupted => own("interrupted"),
            ChatError::Io(e) => e.clone(),
        }
    }

    /// A copy of the error.
    pub fn copy(&self) -> (r: ChatError)
        ensures
            r == *self,
    {
        match self {
            ChatError::LocalCap { turns } => ChatError::LocalCap { turns: *turns },
            ChatError::SharedCap { turns } => ChatError::SharedCap { turns: *turns },
            ChatError::Provider(e) => ChatError::Provider(e.clone()),
            ChatError::BadFormat(s) => ChatError::BadFormat(s.clone()),
            ChatError::Interrupted => ChatError::Interrupted,
            ChatError::Io(e) => ChatError::Io(e.clone()),
        }
    }
}

} // verus!
