//! The interactive entry: everything between "this run has no message" and the chat itself.
//!
//! Every step that can fail, print, or claim the terminal is finished before the event loop starts, because after
//! that nothing may write to the terminal except through the facade.

use vstd::prelude::*;
use vstd::string::*;

use crate::cmd::args::{Invocation, Resume};
use crate::cmd::error::{ArgsError, CliError, RunError, SetupError};

pub mod laws;
pub mod open;
pub mod picker;
pub mod session;
pub mod title;
pub mod wire;
pub mod wiring;

verus! {

/// How an interactive run starts.
pub struct Start {
    /// The conversation is not saved unless the user asks for it.
    pub ephemeral: bool,
    /// The verb was `resume`.
    pub resume_given: bool,
    /// The session is picked from a list.
    pub pick: bool,
}

/// Whether a run starts ephemeral: the flag, or the agent's own setting, which an explicit resume outranks.
pub open spec fn starts_ephemeral(inv: Invocation, no_save: bool) -> bool {
    inv.args.no_save || (no_save && inv.resume is None)
}

/// Whether an interactive run can start, and how. `no_save` is the agent's own setting.
pub fn interactive_start(inv: &Invocation, no_save: bool, is_terminal: bool) -> (r: Result<
    Start,
    CliError,
>)
    ensures
        if inv.args.no_save && inv.resume is Some {
            r matches Err(CliError::Args(ArgsError::NoSaveWithResume))
        } else if !is_terminal {
            r matches Err(CliError::Setup(SetupError::NotATerminal))
        } else {
            r matches Ok(s) && s.ephemeral == starts_ephemeral(*inv, no_save) && s.resume_given
                == inv.resume is Some && s.pick == (inv.resume == Some(Resume::Pick))
        },
{
    if inv.args.no_save && inv.resume.is_some() {
        return Err(CliError::Args(ArgsError::NoSaveWithResume));
    }
    if !is_terminal {
        return Err(CliError::Setup(SetupError::NotATerminal));
    }
    let pick = match &inv.resume {
        Some(Resume::Pick) => true,
        _ => false,
    };
    Ok(
        Start {
            ephemeral: inv.args.no_save || (no_save && inv.resume.is_none()),
            resume_given: inv.resume.is_some(),
            pick,
        },
    )
}

/// A resumed conversation is never ephemeral.
pub proof fn resumed_runs_are_saved(inv: Invocation, no_save: bool)
    requires
        inv.resume is Some,
        !inv.args.no_save,
    ensures
        !starts_ephemeral(inv, no_save),
{
}

// ---------------------------------------------------------------- the way out

/// Why the chat ended.
pub enum ReplError {
    /// A failure of the session store, with its text.
    Session(String),
    /// An I/O failure, with its text.
    Io(String),
    /// The facade failed, with its text.
    Ui(String),
}

/// The error of the program for an end of the chat.
pub open spec fn ended_with(e: ReplError) -> CliError {
    match e {
        ReplError::Session(e) => CliError::Setup(SetupError::Session(e)),
        ReplError::Io(e) => CliError::Run(RunError::Io(e)),
        ReplError::Ui(e) => CliError::Run(RunError::Ui(e)),
    }
}

/// The error of the program for an end of the chat.
pub fn repl_error(e: ReplError) -> (r: CliError)
    ensures
        r == ended_with(e),
{
    match e {
        ReplError::Session(e) => CliError::Setup(SetupError::Session(e)),
        ReplError::Io(e) => CliError::Run(RunError::Io(e)),
        ReplError::Ui(e) => CliError::Run(RunError::Ui(e)),
    }
}

/// One step of the way out.
#[derive(Clone, Copy, Debug, PartialEq, Eq, Structural)]
pub enum Closing {
    /// Flush the interface and join its loop.
    Interface,
    /// Hand the tab title back.
    Title,
    /// Stop a connect that is still under way.
    Connect,
    /// Close the servers.
    Servers,
}

} // verus!
