//! The terminal's title stack: pushed on plain stdout before the event loop, popped after the facade has
//! released the terminal.

use vstd::prelude::*;

verus! {

/// Pushes the terminal's title stack.
pub const TITLE_STACK_PUSH: &'static str = "\x1b[22;0t";

/// Pops it.
pub const TITLE_STACK_POP: &'static str = "\x1b[23;0t";

} // verus!
