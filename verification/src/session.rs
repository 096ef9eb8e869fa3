//! What a saved session records, and the parameters it runs under.

use vstd::prelude::*;

use crate::double::Double;
use crate::map::Duplicate;
use crate::provider::opt_view;
use crate::text::own;

verus! {

/// Where the value of a parameter came from.
#[derive(Clone, Copy, Debug, PartialEq, Eq, Structural)]
pub enum ParamSource {
    /// No one set it: the built-in default.
    Builtin,
    /// The user set it by hand.
    User,
    /// A declaration of the config supplied it.
    Config,
}

/// The value of one parameter, and where it came from.
pub struct Param<T> {
    pub value: T,
    pub source: ParamSource,
}

impl<T: View> View for Param<T> {
    type V = Param<T::V>;

    open spec fn view(&self) -> Param<T::V> {
        Param { value: self.value@, source: self.source }
    }
}

impl Duplicate for u64 {
    fn duplicate(&self) -> (r: u64) {
        *self
    }
}

impl Duplicate for Option<Double> {
    fn duplicate(&self) -> (r: Option<Double>) {
        *self
    }
}

impl<T: Duplicate> Duplicate for Param<T> {
    fn duplicate(&self) -> (r: Param<T>) {
        Param { value: self.value.duplicate(), source: self.source }
    }
}

impl<T> Param<T> {
    /// A value that a declaration supplied.
    pub fn config(value: T) -> (r: Param<T>)
        ensures
            r == (Param { value, source: ParamSource::Config }),
    {
        Param { value, source: ParamSource::Config }
    }

    /// A value that the user set.
    pub fn user(value: T) -> (r: Param<T>)
        ensures
            r == (Param { value, source: ParamSource::User }),
    {
        Param { value, source: ParamSource::User }
    }

    /// A built-in default.
    pub fn builtin(value: T) -> (r: Param<T>)
        ensures
            r == (Param { value, source: ParamSource::Builtin }),
    {
        Param { value, source: ParamSource::Builtin }
    }
}

/// The four parameters that the layers of a config share, as a session runs under them.
pub struct LayeredParams {
    /// The context window in tokens; 0 is the default.
    pub context_window: Param<u64>,
    /// The reasoning effort; empty is the default.
    pub effort: Param<String>,
    /// The sampling temperature.
    pub temperature: Param<Option<Double>>,
    /// The nucleus.
    pub top_p: Param<Option<Double>>,
}

/// What a [`LayeredParams`] says.
pub struct ParamsView {
    pub context_window: Param<u64>,
    pub effort: Param<Seq<char>>,
    pub temperature: Param<Option<Double>>,
    pub top_p: Param<Option<Double>>,
}

impl View for LayeredParams {
    type V = ParamsView;

    open spec fn view(&self) -> ParamsView {
        ParamsView {
            context_window: self.context_window,
            effort: self.effort@,
            temperature: self.temperature,
            top_p: self.top_p,
        }
    }
}

/// A parameter at its built-in default.
pub open spec fn at_default<V>(value: V) -> Param<V> {
    Param { value, source: ParamSource::Builtin }
}

/// Every parameter at its built-in default.
pub open spec fn default_params() -> ParamsView {
    ParamsView {
        context_window: at_default(0),
        effort: at_default(Seq::empty()),
        temperature: at_default(None),
        top_p: at_default(None),
    }
}

impl Default for LayeredParams {
    /// Every parameter at its built-in default.
    fn default() -> (r: LayeredParams)
        ensures
            r@ == default_params(),
    {
        LayeredParams {
            context_window: Param::builtin(0),
            effort: Param::builtin(String::new()),
            temperature: Param::builtin(None),
            top_p: Param::builtin(None),
        }
    }
}

/// Where the four parameters of a saved session came from.
#[derive(Clone, Copy, Debug, PartialEq, Eq, Structural)]
pub struct ParamSources {
    pub context_window: ParamSource,
    pub effort: ParamSource,
    pub temperature: ParamSource,
    pub top_p: ParamSource,
}

impl Default for ParamSources {
    /// Every parameter at its built-in default.
    fn default() -> (r: ParamSources)
        ensures
            r == (ParamSources {
                context_window: ParamSource::Builtin,
                effort: ParamSource::Builtin,
                temperature: ParamSource::Builtin,
                top_p: ParamSource::Builtin,
            }),
    {
        ParamSources {
            context_window: ParamSource::Builtin,
            effort: ParamSource::Builtin,
            temperature: ParamSource::Builtin,
            top_p: ParamSource::Builtin,
        }
    }
}

/// How a session that recorded no sources is read: everything is the user's own.
pub open spec fn legacy_sources() -> ParamSources {
    ParamSources {
        context_window: ParamSource::User,
        effort: ParamSource::User,
        temperature: ParamSource::User,
        top_p: ParamSource::User,
    }
}

/// What a saved session records about itself.
pub struct SessionMeta {
    /// The agent it ran under.
    pub agent: String,
    /// The provider type it ran on.
    pub provider: String,
    /// The model it ran.
    pub model: String,
    /// The context window in tokens; 0 when none was recorded.
    pub context_window: u64,
    /// The reasoning effort; empty when none was recorded.
    pub effort: String,
    /// The sampling temperature.
    pub temperature: Option<Double>,
    /// The nucleus.
    pub top_p: Option<Double>,
    /// Where the four came from; absent in a session that knew of no sources.
    pub param_sources: Option<ParamSources>,
}

impl Default for SessionMeta {
    /// A session that recorded nothing.
    fn default() -> (r: SessionMeta)
        ensures
            r.agent@.len() == 0,
            r.provider@.len() == 0,
            r.model@.len() == 0,
            r.context_window == 0,
            r.effort@.len() == 0,
            r.temperature is None,
            r.top_p is None,
            r.param_sources is None,
    {
        SessionMeta {
            agent: String::new(),
            provider: String::new(),
            model: String::new(),
            context_window: 0,
            effort: String::new(),
            temperature: None,
            top_p: None,
            param_sources: None,
        }
    }
}

impl SessionMeta {
    /// Where the four parameters came from.
    pub open spec fn sources_view(&self) -> ParamSources {
        match self.param_sources {
            Some(s) => s,
            None => legacy_sources(),
        }
    }

    /// Where the four parameters came from; without a record, from the user.
    pub fn sources(&self) -> (r: ParamSources)
        ensures
            r == self.sources_view(),
    {
        match self.param_sources {
            Some(s) => s,
            None => ParamSources {
                context_window: ParamSource::User,
                effort: ParamSource::User,
                temperature: ParamSource::User,
                top_p: ParamSource::User,
            },
        }
    }

    /// Whether the session recorded where its parameters came from.
    pub fn records_params(&self) -> (r: bool)
        ensures
            r == self.param_sources is Some,
    {
        self.param_sources.is_some()
    }

    /// The context window, when one was recorded.
    pub fn recorded_window(&self) -> (r: Option<u64>)
        ensures
            r == if self.context_window > 0 {
                Some(self.context_window)
            } else {
                None
            },
    {
        if self.context_window > 0 {
            Some(self.context_window)
        } else {
            None
        }
    }

    /// The effort, when one was recorded.
    pub fn recorded_effort(&self) -> (r: Option<String>)
        ensures
            opt_view(r) == if self.effort@.len() > 0 {
                Some(self.effort@)
            } else {
                None
            },
    {
        if self.effort.as_str().is_empty() {
            None
        } else {
            Some(own(self.effort.as_str()))
        }
    }
}

} // verus!
