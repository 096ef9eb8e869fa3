//! Developer diagnostics: a variable names the file that the log goes to.
//!
//! The log is the developer's channel, never the user's: nothing a user must see is written to it, and a run
//! without the variable is exactly as loud as one with it.

use vstd::prelude::*;
use vstd::string::*;

use crate::app::env::{var_of, Env};
use crate::text::{own, push_text, strs};

verus! {

/// The variable that names the log file.
pub const ENV_VAR: &'static str = "IOTA_LOG";

/// What is said of a log file that could not be opened.
pub open spec fn log_warning(path: Seq<char>, e: Seq<char>) -> Seq<char> {
    "Warning: "@ + ENV_VAR@ + ": cannot log to "@ + path + ": "@ + e
}

/// Installs the log through `install` when the variable names a path. A file that cannot be opened is one line,
/// and the run goes on without diagnostics: the user asked for a side channel, not for the run to depend on it.
pub fn install_from_env<F: FnOnce(&String) -> Result<(), String>>(
    env: &Env,
    install: F,
    warn: &mut Vec<String>,
)
    requires
        forall|p: &String| Some(p@) == var_of(env@, ENV_VAR@) ==> install.requires((p,)),
    ensures
        match var_of(env@, ENV_VAR@) {
            None => strs(final(warn)@) == strs(old(warn)@),
            Some(path) => exists|p: &String, r: Result<(), String>|
                {
                    &&& p@ == path
                    &&& #[trigger] install.ensures((p,), r)
                    &&& strs(final(warn)@) == match r {
                        Ok(_) => strs(old(warn)@),
                        Err(e) => strs(old(warn)@).push(log_warning(path, e@)),
                    }
                },
        },
{
    if let Some(path) = env.var(ENV_VAR) {
        if let Err(e) = install(&path) {
            let mut w: String = own("Warning: ");
            w.append(ENV_VAR);
            w.append(": cannot log to ");
            w.append(path.as_str());
            w.append(": ");
            w.append(e.as_str());
            push_text(warn, w);
        }
    }
}

} // verus!
