//! Whether this process paints its output.

use vstd::prelude::*;

use crate::app::env::{var_of, Env, EnvView};
use crate::text::same;

verus! {

/// Whether escape sequences may be written.
#[derive(Clone, Copy, Debug, PartialEq, Eq, Structural)]
pub enum ColorMode {
    /// Paint: every style helper emits its sequence.
    On,
    /// Plain text.
    Off,
}

/// The mode of an environment: off when `NO_COLOR` is set to a non-empty value, whatever it is; off when
/// `TERM` is exactly `dumb`; off when the output is no terminal.
pub open spec fn mode_in(env: EnvView, terminal: bool) -> ColorMode {
    if var_of(env, "NO_COLOR"@) is Some || var_of(env, "TERM"@) == Some("dumb"@) || !terminal {
        ColorMode::Off
    } else {
        ColorMode::On
    }
}

impl ColorMode {
    /// Decides from the environment and the nature of the output.
    pub fn detect(env: &Env, stdout_is_terminal: bool) -> (r: ColorMode)
        ensures
            r == mode_in(env@, stdout_is_terminal),
    {
        if env.var("NO_COLOR").is_some() {
            return ColorMode::Off;
        }
        if let Some(term) = env.var("TERM") {
            if same(term.as_str(), "dumb") {
                return ColorMode::Off;
            }
        }
        if !stdout_is_terminal {
            return ColorMode::Off;
        }
        ColorMode::On
    }

    /// `true` for [`ColorMode::On`].
    pub fn is_on(self) -> (r: bool)
        ensures
            r == (self == ColorMode::On),
    {
        self == ColorMode::On
    }
}

/// The decision in force: [`ColorMode::On`] until one was made.
pub open spec fn in_force(decided: Option<ColorMode>) -> ColorMode {
    match decided {
        Some(m) => m,
        None => ColorMode::On,
    }
}

/// Records the decision. The FIRST call wins and later ones are ignored.
pub fn init(decided: &mut Option<ColorMode>, mode: ColorMode) -> (r: ColorMode)
    ensures
        *final(decided) == Some(
            match *old(decided) {
                Some(m) => m,
                None => mode,
            },
        ),
        r == in_force(*final(decided)),
{
    match *decided {
        Some(m) => m,
        None => {
            *decided = Some(mode);
            mode
        },
    }
}

/// The decision in force.
pub fn current(decided: &Option<ColorMode>) -> (r: ColorMode)
    ensures
        r == in_force(*decided),
{
    match decided {
        Some(m) => *m,
        None => ColorMode::On,
    }
}

/// Whether the decision in force is to paint.
pub fn enabled(decided: &Option<ColorMode>) -> (r: bool)
    ensures
        r == (in_force(*decided) == ColorMode::On),
{
    current(decided).is_on()
}

} // verus!
