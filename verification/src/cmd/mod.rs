//! The command: its verbs, what each decides, and the texts they print.

use vstd::prelude::*;

pub mod args;
pub mod assemble;
pub mod cli;
pub mod config_cmd;
pub mod delegate;
pub mod detail_laws;
pub mod error;
pub mod headless;
pub mod interactive;
pub mod io;
pub mod laws;
pub mod list;
pub mod mcp_cmd;
pub mod mcp_laws;
pub mod mcp_view;
pub mod outcome_laws;
pub mod resolve;
pub mod run;
pub mod show_laws;
pub mod table;
pub mod tuning;
pub mod window;

verus! {

/// The version that is printed.
pub const VERSION: &'static str = "0.1.0";

} // verus!
