//! The layered evaluation of the four parameters that `models:` and `agents:` share.
//!
//! `context_window`, `effort`, `temperature` and `top_p` are resolved from three tiers, highest first: what the
//! `agents:` entry declares; what the model the session is RUNNING declares; the session's current value — and
//! only when it is the session's OWN. One a declaration supplied is dropped instead, so that the model a switch
//! left behind cannot leak into the model it arrived at.
//!
//! When the config speaks the config decides; when the config is silent the hand-set value stands.

use vstd::prelude::*;

use crate::config::agent::{blank_agent, AgentConfig, AgentView};
use crate::config::model::{
    anchored, blank_model, mode_of, ModelConfig, ModelView,
};
use crate::config::provider::or_else;
use crate::config::{Config, Resolved};
use crate::double::Double;
use crate::map::{map_of, pairs_of, Duplicate, StrMap};
use crate::provider::{effort_named, opt_view, set_text, DeferMode, Effort};
use crate::session::{
    at_default, default_params, LayeredParams, Param, ParamSource, ParamsView, SessionMeta,
};
use crate::text::{own, same};

verus! {

/// One `context_window:` as it was WRITTEN, plus the layer that wrote it.
pub struct WindowDecl {
    /// The value as written.
    pub raw: String,
    /// Which layer wrote it, for the error text.
    pub label: &'static str,
}

/// The label of a value written under `models:`.
pub const MODEL_WINDOW_LABEL: &'static str = "config context_window";

/// The label of an `agents:` override.
pub const AGENT_WINDOW_LABEL: &'static str = "agent context_window";

/// The `context_window:` that applies to an agent and a model, with its label: the agent's, else the model's.
pub open spec fn window_of(agent: AgentView, model: ModelView) -> Option<(Seq<char>, Seq<char>)> {
    if agent.context_window.len() > 0 {
        Some((agent.context_window, AGENT_WINDOW_LABEL@))
    } else if model.context_window.len() > 0 {
        Some((model.context_window, MODEL_WINDOW_LABEL@))
    } else {
        None
    }
}

/// What the two config layers declare for ONE pair of agent and model: the agent's key where it has one, the
/// model's otherwise, per key.
pub struct Declared {
    /// `context_window:`, already parsed.
    pub context_window: Option<u64>,
    /// `effort:`; a declaration is never the empty string.
    pub effort: Option<String>,
    /// `temperature:`.
    pub temperature: Option<Double>,
    /// `top_p:`.
    pub top_p: Option<Double>,
}

/// What a [`Declared`] says.
pub struct DeclaredView {
    pub context_window: Option<u64>,
    pub effort: Option<Seq<char>>,
    pub temperature: Option<Double>,
    pub top_p: Option<Double>,
}

impl View for Declared {
    type V = DeclaredView;

    open spec fn view(&self) -> DeclaredView {
        DeclaredView {
            context_window: self.context_window,
            effort: opt_view(self.effort),
            temperature: self.temperature,
            top_p: self.top_p,
        }
    }
}

/// A config that is silent on all four.
pub open spec fn silence() -> DeclaredView {
    DeclaredView { context_window: None, effort: None, temperature: None, top_p: None }
}

impl Default for Declared {
    /// Silence on all four.
    fn default() -> (r: Declared)
        ensures
            r@ == silence(),
    {
        Declared { context_window: None, effort: None, temperature: None, top_p: None }
    }
}

/// `a`, or `b` when it is unset.
pub open spec fn or_opt<V>(a: Option<V>, b: Option<V>) -> Option<V> {
    if a is Some {
        a
    } else {
        b
    }
}

/// The declarations of an agent and a model; `window` is the parsed `context_window:`.
pub open spec fn declarations(agent: AgentView, model: ModelView, window: Option<u64>) ->
    DeclaredView {
    DeclaredView {
        context_window: window,
        effort: set_text(or_else(agent.effort, model.effort)),
        temperature: or_opt(agent.temperature, model.temperature),
        top_p: or_opt(agent.top_p, model.top_p),
    }
}

/// The rule for one parameter: a declaration wins; with none, the session keeps its own value and drops one
/// that a declaration had supplied.
pub open spec fn ruled<V>(declared: Option<V>, current: Param<V>, default: V) -> Param<V> {
    match declared {
        Some(value) => Param { value, source: ParamSource::Config },
        None => if current.source == ParamSource::Config {
            at_default(default)
        } else {
            current
        },
    }
}

/// A value that is there, as one that may be absent.
pub open spec fn present(o: Option<Double>) -> Option<Option<Double>> {
    match o {
        Some(x) => Some(Some(x)),
        None => None,
    }
}

/// The rule, for all four parameters at once.
pub open spec fn evaluated(d: DeclaredView, current: ParamsView) -> ParamsView {
    ParamsView {
        context_window: ruled(d.context_window, current.context_window, 0),
        effort: ruled(d.effort, current.effort, Seq::empty()),
        temperature: ruled(present(d.temperature), current.temperature, None),
        top_p: ruled(present(d.top_p), current.top_p, None),
    }
}

/// What a saved session recorded for one parameter: nothing when it does not replay, the value it carries, and
/// — when its record is complete — the default for a value it does not carry.
pub open spec fn recorded<V>(replayed: bool, complete: bool, value: Option<V>, default: V) -> Option<
    V,
> {
    if !replayed {
        None
    } else if value is Some {
        value
    } else if complete {
        Some(default)
    } else {
        None
    }
}

/// One parameter's restore: the recorded value with its own source, or the evaluation without a record.
pub open spec fn restored<V>(value: Option<V>, source: ParamSource, evaluation: Param<V>) -> Param<
    V,
> {
    match value {
        Some(value) => Param { value, source },
        None => evaluation,
    }
}

/// The parameters of a resumed session: every recorded value comes back with the source it was written with,
/// and only what was never recorded is evaluated.
pub open spec fn resumed(d: DeclaredView, meta: SessionMeta, replayed: bool) -> ParamsView {
    let fresh = evaluated(d, default_params());
    let src = meta.sources_view();
    let complete = replayed && meta.param_sources is Some;
    let window = if meta.context_window > 0 {
        Some(meta.context_window)
    } else {
        None
    };
    let effort = if effort_named(meta.effort@) is Some {
        Some(meta.effort@)
    } else {
        None
    };
    ParamsView {
        context_window: restored(
            recorded(replayed, complete, window, 0),
            src.context_window,
            fresh.context_window,
        ),
        effort: restored(
            recorded(replayed, complete, effort, Seq::empty()),
            src.effort,
            fresh.effort,
        ),
        temperature: restored(
            recorded(replayed, complete, present(meta.temperature), None),
            src.temperature,
            fresh.temperature,
        ),
        top_p: restored(
            recorded(replayed, complete, present(meta.top_p), None),
            src.top_p,
            fresh.top_p,
        ),
    }
}

/// `a` when it is non-empty, else `b` when IT is, else `None`.
fn first_non_empty(a: &str, b: &str) -> (r: Option<String>)
    ensures
        opt_view(r) == set_text(or_else(a@, b@)),
{
    if !a.is_empty() {
        Some(own(a))
    } else if !b.is_empty() {
        Some(own(b))
    } else {
        None
    }
}

/// The view of an optional value.
pub open spec fn opt_of<T: View>(o: Option<T>) -> Option<T::V> {
    match o {
        Some(x) => Some(x@),
        None => None,
    }
}

/// One parameter's evaluation.
fn evaluate_one<T: Duplicate>(declared: Option<T>, current: &Param<T>, default: T) -> (r: Param<T>)
    ensures
        r@ == ruled(opt_of(declared), current@, default@),
{
    match declared {
        Some(value) => Param::config(value),
        None => if current.source == ParamSource::Config {
            Param::builtin(default)
        } else {
            current.duplicate()
        },
    }
}

/// What the saved session recorded for one parameter.
fn pick<T: View>(replayed: bool, complete: bool, value: Option<T>, default: T) -> (r: Option<T>)
    ensures
        opt_of(r) == recorded(replayed, complete, opt_of(value), default@),
{
    if !replayed {
        return None;
    }
    match value {
        Some(v) => Some(v),
        None => if complete {
            Some(default)
        } else {
            None
        },
    }
}

/// One parameter's restore.
fn restore_one<T: View>(recorded: Option<T>, source: ParamSource, evaluated: Param<T>) -> (r: Param<
    T,
>)
    ensures
        r@ == restored(opt_of(recorded), source, evaluated@),
{
    match recorded {
        Some(value) => Param { value, source },
        None => evaluated,
    }
}

/// A value that is there, as one that may be absent.
fn some_of(o: Option<Double>) -> (r: Option<Option<Double>>)
    ensures
        r == present(o),
{
    match o {
        Some(x) => Some(Some(x)),
        None => None,
    }
}

impl Declared {
    /// The `context_window:` that applies to this pair, or `None` when neither layer wrote one.
    pub fn window_decl(agent: &AgentConfig, model: &ModelConfig) -> (r: Option<WindowDecl>)
        ensures
            match r {
                Some(w) => window_of(agent@, model@) == Some((w.raw@, w.label@)),
                None => window_of(agent@, model@) is None,
            },
    {
        if !agent.context_window.as_str().is_empty() {
            return Some(
                WindowDecl { raw: agent.context_window.clone(), label: AGENT_WINDOW_LABEL },
            );
        }
        if !model.context_window.as_str().is_empty() {
            return Some(
                WindowDecl { raw: model.context_window.clone(), label: MODEL_WINDOW_LABEL },
            );
        }
        None
    }

    /// The declarations of one pair of agent and model; `window` is its `context_window:` parsed.
    pub fn of(agent: &AgentConfig, model: &ModelConfig, window: Option<u64>) -> (r: Declared)
        ensures
            r@ == declarations(agent@, model@, window),
    {
        Declared {
            context_window: window,
            effort: first_non_empty(agent.effort.as_str(), model.effort.as_str()),
            temperature: match agent.temperature {
                Some(t) => Some(t),
                None => model.temperature,
            },
            top_p: match agent.top_p {
                Some(t) => Some(t),
                None => model.top_p,
            },
        }
    }

    /// THE rule: a declaration wins; with none, the session keeps its own value and drops one that a
    /// declaration had supplied. A new session passes the defaults as `current`, a switch of models what the
    /// session runs under.
    pub fn evaluate(&self, current: &LayeredParams) -> (r: LayeredParams)
        ensures
            r@ == evaluated(self@, current@),
    {
        let context_window: Param<u64> = evaluate_one(
            self.context_window,
            &current.context_window,
            0,
        );
        let effort: Param<String> = evaluate_one(
            self.effort.clone(),
            &current.effort,
            String::new(),
        );
        let temperature: Param<Option<Double>> = evaluate_one(
            some_of(self.temperature),
            &current.temperature,
            None,
        );
        let top_p: Param<Option<Double>> = evaluate_one(some_of(self.top_p), &current.top_p, None);
        LayeredParams { context_window, effort, temperature, top_p }
    }

    /// A RESUMED session's four parameters: what it recorded, with the sources it recorded, and the evaluation
    /// for what it never recorded. `replayed` says whether the session's tuning applies to this run at all.
    pub fn resume(&self, meta: &SessionMeta, replayed: bool) -> (r: LayeredParams)
        ensures
            r@ == resumed(self@, *meta, replayed),
    {
        let fresh: LayeredParams = self.evaluate(&LayeredParams::default());
        let src = meta.sources();
        let complete = replayed && meta.records_params();
        // A level that cannot be read was not applied, so the session is not running under it.
        let effort: Option<String> = match meta.recorded_effort() {
            Some(e) => match Effort::parse(e.as_str()) {
                Ok(_) => Some(e),
                Err(_) => None,
            },
            None => None,
        };
        proof {
            if meta.effort@.len() == 0 {
                reveal_strlit("low");
                reveal_strlit("medium");
                reveal_strlit("high");
                reveal_strlit("xhigh");
                reveal_strlit("max");
                assert("low"@.len() > 0 && "medium"@.len() > 0 && "high"@.len() > 0
                    && "xhigh"@.len() > 0 && "max"@.len() > 0);
            }
        }
        LayeredParams {
            context_window: restore_one(
                pick(replayed, complete, meta.recorded_window(), 0),
                src.context_window,
                fresh.context_window,
            ),
            effort: restore_one(
                pick(replayed, complete, effort, String::new()),
                src.effort,
                fresh.effort,
            ),
            temperature: restore_one(
                pick(replayed, complete, some_of(meta.temperature), None),
                src.temperature,
                fresh.temperature,
            ),
            top_p: restore_one(
                pick(replayed, complete, some_of(meta.top_p), None),
                src.top_p,
                fresh.top_p,
            ),
        }
    }
}

// ---------------------------------------------------------------- laws

/// Evaluating twice is evaluating once.
pub proof fn evaluation_is_idempotent(d: DeclaredView, current: ParamsView)
    ensures
        evaluated(d, evaluated(d, current)) == evaluated(d, current),
{
}

/// A declaration decides whatever the session ran under.
pub proof fn declaration_decides(d: DeclaredView, a: ParamsView, b: ParamsView)
    ensures
        d.context_window is Some ==> evaluated(d, a).context_window == evaluated(
            d,
            b,
        ).context_window,
        d.effort is Some ==> evaluated(d, a).effort == evaluated(d, b).effort,
        d.temperature is Some ==> evaluated(d, a).temperature == evaluated(d, b).temperature,
        d.top_p is Some ==> evaluated(d, a).top_p == evaluated(d, b).top_p,
{
}

/// What a declaration supplied does not outlive it: a switch onto a model that declares nothing leaves each
/// parameter the model before it had declared at its default.
pub proof fn switch_does_not_leak(d: DeclaredView, current: ParamsView)
    ensures
        ({
            let after = evaluated(silence(), evaluated(d, current));
            &&& d.context_window is Some ==> after.context_window
                == default_params().context_window
            &&& d.effort is Some ==> after.effort == default_params().effort
            &&& d.temperature is Some ==> after.temperature == default_params().temperature
            &&& d.top_p is Some ==> after.top_p == default_params().top_p
        }),
{
}

/// What the user set stays while the config is silent on it, however often the model is switched.
pub proof fn hand_set_value_stands(d: DeclaredView, current: ParamsView)
    ensures
        d.context_window is None && current.context_window.source == ParamSource::User
            ==> evaluated(d, current).context_window == current.context_window,
        d.effort is None && current.effort.source == ParamSource::User ==> evaluated(
            d,
            current,
        ).effort == current.effort,
        d.temperature is None && current.temperature.source == ParamSource::User ==> evaluated(
            d,
            current,
        ).temperature == current.temperature,
        d.top_p is None && current.top_p.source == ParamSource::User ==> evaluated(d, current).top_p
            == current.top_p,
{
}

/// A session that recorded its sources resumes as it was, whatever the config declares now.
pub proof fn complete_record_ignores_the_config(
    meta: SessionMeta,
    before: DeclaredView,
    now: DeclaredView,
)
    requires
        meta.param_sources is Some,
    ensures
        resumed(before, meta, true) == resumed(now, meta, true),
{
}

/// A session whose tuning does not apply starts like a new one.
pub proof fn no_replay_is_a_new_session(meta: SessionMeta, d: DeclaredView)
    ensures
        resumed(d, meta, false) == evaluated(d, default_params()),
{
}

// ---------------------------------------------------------------- layers

/// What a switch of models evaluates against: the running agent's declarations, and every `models:` entry.
pub struct ParamLayers {
    agent: AgentConfig,
    provider: String,
    models: StrMap<ModelConfig>,
    defer_mode: DeferMode,
}

/// What a [`ParamLayers`] says.
pub struct LayersView {
    pub agent: AgentView,
    pub provider: Seq<char>,
    pub models: Map<Seq<char>, ModelView>,
    pub defer_mode: DeferMode,
}

impl View for ParamLayers {
    type V = LayersView;

    closed spec fn view(&self) -> LayersView {
        LayersView {
            agent: self.agent@,
            provider: self.provider@,
            models: self.models@,
            defer_mode: self.defer_mode,
        }
    }
}

/// The models with their providers pinned to their own names where they name none.
pub open spec fn all_anchored(models: Map<Seq<char>, ModelView>) -> Map<Seq<char>, ModelView> {
    Map::new(|k: Seq<char>| models.contains_key(k), |k: Seq<char>| anchored(models[k], k))
}

/// The first model from `i` on that has the provider and the id.
pub open spec fn model_from(
    pairs: Seq<(Seq<char>, ModelView)>,
    provider: Seq<char>,
    id: Seq<char>,
    i: int,
) -> Option<ModelView>
    decreases pairs.len() - i,
{
    if i < 0 || i >= pairs.len() {
        None
    } else if pairs[i].1.provider == provider && pairs[i].1.id == id {
        Some(pairs[i].1)
    } else {
        model_from(pairs, provider, id, i + 1)
    }
}

/// The `models:` entry that configures `id`: the first in name order of the run's provider.
pub open spec fn layer_model(layers: LayersView, id: Seq<char>) -> Option<ModelView> {
    model_from(pairs_of(layers.models), layers.provider, id, 0)
}

/// The model layer of `id`: its entry, or one that says nothing.
pub open spec fn layer_or_blank(layers: LayersView, id: Seq<char>) -> ModelView {
    match layer_model(layers, id) {
        Some(m) => m,
        None => blank_model(),
    }
}

impl Default for ParamLayers {
    /// A config that declares nothing.
    fn default() -> (r: ParamLayers)
        ensures
            r@ == (LayersView {
                agent: blank_agent(),
                provider: Seq::empty(),
                models: Map::empty(),
                defer_mode: DeferMode::Normal,
            }),
    {
        ParamLayers {
            agent: AgentConfig::default(),
            provider: String::new(),
            models: StrMap::new(),
            defer_mode: DeferMode::Normal,
        }
    }
}

impl ParamLayers {
    /// The layers a run resolved to.
    pub fn new(cfg: &Config, resolved: &Resolved) -> (r: ParamLayers)
        ensures
            r@ == (LayersView {
                agent: resolved@.agent,
                provider: resolved@.provider_name,
                models: all_anchored(cfg@.models),
                defer_mode: mode_of(resolved@.model),
            }),
    {
        let n: usize = cfg.models.len();
        let ghost pairs = cfg.models.pairs();
        let mut models: StrMap<ModelConfig> = StrMap::new();
        assert(models@ =~= all_anchored(map_of(pairs.take(0))));
        for i in 0..n
            invariant
                n == pairs.len(),
                pairs == cfg.models.pairs(),
                models@ == all_anchored(map_of(pairs.take(i as int))),
        {
            let mut m: ModelConfig = cfg.models.value_at(i).duplicate();
            m.anchor_provider(cfg.models.key_at(i).as_str());
            let ghost was = map_of(pairs.take(i as int));
            models.insert(cfg.models.key_at(i).clone(), m);
            assert(pairs.take(i + 1).drop_last() =~= pairs.take(i as int));
            assert(models@ =~= all_anchored(map_of(pairs.take(i + 1))));
        }
        assert(pairs.take(n as int) =~= pairs);
        ParamLayers {
            agent: resolved.agent.duplicate(),
            provider: resolved.provider_name.clone(),
            models,
            defer_mode: resolved.model.defer_mode(),
        }
    }

    /// The `defer_mode:` the run started with, and the one `id` would ask for, when they differ.
    pub fn defer_mode_drift(&self, id: &str) -> (r: Option<(DeferMode, DeferMode)>)
        ensures
            r == if mode_of(layer_or_blank(self@, id@)) == self@.defer_mode {
                None
            } else {
                Some((self@.defer_mode, mode_of(layer_or_blank(self@, id@))))
            },
    {
        let wanted: DeferMode = match self.model_of(id) {
            Some(m) => m.defer_mode(),
            None => ModelConfig::default().defer_mode(),
        };
        if wanted == self.defer_mode {
            None
        } else {
            Some((self.defer_mode, wanted))
        }
    }

    /// The `agents:` entry, which applies whatever model the chat is on.
    pub fn agent(&self) -> (r: &AgentConfig)
        ensures
            r@ == self@.agent,
    {
        &self.agent
    }

    /// The `models:` entry that configures `id` on this run's provider.
    pub fn model_of(&self, id: &str) -> (r: Option<&ModelConfig>)
        ensures
            match r {
                Some(m) => layer_model(self@, id@) == Some(m@),
                None => layer_model(self@, id@) is None,
            },
    {
        let n: usize = self.models.len();
        let ghost pairs = self.models.pairs();
        for i in 0..n
            invariant
                n == pairs.len(),
                pairs == self.models.pairs(),
                pairs == pairs_of(self@.models),
                layer_model(self@, id@) == model_from(pairs, self@.provider, id@, i as int),
        {
            let m: &ModelConfig = self.models.value_at(i);
            if same(m.provider.as_str(), self.provider.as_str()) && same(m.id.as_str(), id) {
                return Some(m);
            }
        }
        None
    }

    /// The `context_window:` that applies when the chat runs `id`, for the caller to parse.
    pub fn window_for(&self, id: &str) -> (r: Option<WindowDecl>)
        ensures
            match r {
                Some(w) => window_of(self@.agent, layer_or_blank(self@, id@)) == Some(
                    (w.raw@, w.label@),
                ),
                None => window_of(self@.agent, layer_or_blank(self@, id@)) is None,
            },
    {
        match self.model_of(id) {
            Some(m) => Declared::window_decl(&self.agent, m),
            None => Declared::window_decl(&self.agent, &ModelConfig::default()),
        }
    }

    /// The declarations that apply when the chat runs `id`; `window` is what [`ParamLayers::window_for`]
    /// parsed to.
    pub fn declared(&self, id: &str, window: Option<u64>) -> (r: Declared)
        ensures
            r@ == declarations(self@.agent, layer_or_blank(self@, id@), window),
    {
        match self.model_of(id) {
            Some(m) => Declared::of(&self.agent, m, window),
            None => Declared::of(&self.agent, &ModelConfig::default(), window),
        }
    }
}

} // verus!
