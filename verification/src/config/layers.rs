//! What the layers of a run's parameters come to: what is declared, what a session recorded, and what was set by
//! hand.

use vstd::prelude::*;
use vstd::string::*;

use crate::config::agent::AgentView;
use crate::config::model::{mode_of, ModelView};
use crate::config::params::{
    all_anchored, declarations, evaluated, layer_model, model_from, resumed, window_of,
    DeclaredView, LayersView,
};
use crate::map::pairs_of;
use crate::provider::{defer_name, effort_named, DeferMode};
use crate::session::{ParamSource, ParamsView, SessionMeta};

verus! {

/// What the agent declares comes before what the model declares; where neither declares anything, nothing is
/// declared.
pub proof fn agents_speak_before_models(agent: AgentView, model: ModelView, window: Option<u64>)
    ensures
        ({
            let d = declarations(agent, model, window);
            &&& d.context_window == window
            &&& agent.effort.len() > 0 ==> d.effort == Some(agent.effort)
            &&& agent.effort.len() == 0 && model.effort.len() > 0 ==> d.effort == Some(model.effort)
            &&& agent.effort.len() == 0 && model.effort.len() == 0 ==> d.effort is None
            &&& agent.temperature is Some ==> d.temperature == agent.temperature
            &&& agent.temperature is None ==> d.temperature == model.temperature
            &&& agent.top_p is Some ==> d.top_p == agent.top_p
            &&& agent.top_p is None ==> d.top_p == model.top_p
        }),
        agent.context_window.len() > 0 ==> (window_of(agent, model) matches Some((raw, _)) && raw
            == agent.context_window),
        agent.context_window.len() == 0 && model.context_window.len() > 0 ==> (window_of(
            agent,
            model,
        ) matches Some((raw, _)) && raw == model.context_window),
        agent.context_window.len() == 0 && model.context_window.len() == 0 ==> window_of(
            agent,
            model,
        ) is None,
{
}

/// A declared value stands, as the config's own; an undeclared one falls back to nothing where it came from a
/// config, and stays as it is where it did not.
pub proof fn declared_values_stand(d: DeclaredView, now: ParamsView)
    ensures
        ({
            let p = evaluated(d, now);
            &&& d.context_window matches Some(v) ==> p.context_window.value == v
                && p.context_window.source == ParamSource::Config
            &&& d.context_window is None && now.context_window.source == ParamSource::Config
                ==> p.context_window.value == 0 && p.context_window.source == ParamSource::Builtin
            &&& d.context_window is None && now.context_window.source != ParamSource::Config
                ==> p.context_window == now.context_window
            &&& d.effort matches Some(v) ==> p.effort.value == v && p.effort.source
                == ParamSource::Config
            &&& d.effort is None && now.effort.source == ParamSource::Config
                ==> p.effort.value.len() == 0 && p.effort.source == ParamSource::Builtin
            &&& d.effort is None && now.effort.source != ParamSource::Config ==> p.effort
                == now.effort
            &&& d.temperature matches Some(v) ==> p.temperature.value == Some(v)
                && p.temperature.source == ParamSource::Config
            &&& d.temperature is None && now.temperature.source == ParamSource::Config
                ==> p.temperature.value is None && p.temperature.source == ParamSource::Builtin
            &&& d.temperature is None && now.temperature.source != ParamSource::Config
                ==> p.temperature == now.temperature
            &&& d.top_p matches Some(v) ==> p.top_p.value == Some(v) && p.top_p.source
                == ParamSource::Config
            &&& d.top_p is None && now.top_p.source == ParamSource::Config ==> p.top_p.value is None
                && p.top_p.source == ParamSource::Builtin
            &&& d.top_p is None && now.top_p.source != ParamSource::Config ==> p.top_p == now.top_p
        }),
{
}

/// A resumed session runs under the values it recorded, whatever the config declares now; where each came from is
/// what it recorded, and a session that recorded no sources counts as set by hand.
pub proof fn recorded_values_are_restored(d: DeclaredView, meta: SessionMeta)
    ensures
        ({
            let p = resumed(d, meta, true);
            &&& meta.context_window > 0 ==> p.context_window.value == meta.context_window
            &&& effort_named(meta.effort@) is Some ==> p.effort.value == meta.effort@
            &&& meta.temperature is Some ==> p.temperature.value == meta.temperature
            &&& meta.top_p is Some ==> p.top_p.value == meta.top_p
            &&& meta.param_sources matches Some(src) ==> {
                &&& p.context_window.source == src.context_window
                &&& p.effort.source == src.effort
                &&& p.temperature.source == src.temperature
                &&& p.top_p.source == src.top_p
                &&& meta.context_window == 0 ==> p.context_window.value == 0
                &&& meta.temperature is None ==> p.temperature.value is None
                &&& meta.top_p is None ==> p.top_p.value is None
                &&& effort_named(meta.effort@) is None ==> p.effort.value.len() == 0
            }
            &&& meta.param_sources is None ==> {
                &&& meta.context_window > 0 ==> p.context_window.source == ParamSource::User
                &&& effort_named(meta.effort@) is Some ==> p.effort.source == ParamSource::User
                &&& meta.temperature is Some ==> p.temperature.source == ParamSource::User
                &&& meta.top_p is Some ==> p.top_p.source == ParamSource::User
                &&& meta.context_window == 0 && d.context_window is Some ==> Some(
                    p.context_window.value,
                ) == d.context_window
                &&& meta.temperature is None && d.temperature is Some ==> p.temperature.value
                    == d.temperature
                &&& meta.top_p is None && d.top_p is Some ==> p.top_p.value == d.top_p
            }
        }),
{
}

proof fn model_from_is(pairs: Seq<(Seq<char>, ModelView)>, provider: Seq<char>, id: Seq<char>, i: int)
    requires
        0 <= i <= pairs.len(),
    ensures
        model_from(pairs, provider, id, i) matches Some(m) ==> m.provider == provider && m.id == id
            && exists|k: int| i <= k < pairs.len() && (#[trigger] pairs[k]).1 == m,
        model_from(pairs, provider, id, i) is None ==> forall|k: int|
            i <= k < pairs.len() ==> !((#[trigger] pairs[k]).1.provider == provider && pairs[k].1.id
                == id),
    decreases pairs.len() - i,
{
    if i < pairs.len() {
        model_from_is(pairs, provider, id, i + 1);
    }
}

/// The model of an id is one of the declared entries, at the run's provider and with that id; there is none only
/// where no entry is for both.
pub proof fn models_are_found_at_the_provider(layers: LayersView, id: Seq<char>)
    ensures
        layer_model(layers, id) matches Some(m) ==> m.provider == layers.provider && m.id == id
            && exists|k: int|
            0 <= k < pairs_of(layers.models).len() && (#[trigger] pairs_of(layers.models)[k]).1 == m,
        layer_model(layers, id) is None ==> forall|k: int|
            0 <= k < pairs_of(layers.models).len() ==> !((#[trigger] pairs_of(
                layers.models,
            )[k]).1.provider == layers.provider && pairs_of(layers.models)[k].1.id == id),
{
    model_from_is(pairs_of(layers.models), layers.provider, id, 0);
}

/// Every declared model is there under its name, at the provider it names or at its own name.
pub proof fn every_model_has_a_provider(models: Map<Seq<char>, ModelView>, name: Seq<char>)
    ensures
        all_anchored(models).contains_key(name) == models.contains_key(name),
        models.contains_key(name) ==> ({
            let m = all_anchored(models)[name];
            &&& models[name].provider.len() > 0 ==> m == models[name]
            &&& models[name].provider.len() == 0 ==> m == (ModelView {
                provider: name,
                ..models[name]
            })
        }),
{
}

/// A model defers its tools the way it says, and not at all where it says nothing that is known.
pub proof fn models_defer_as_they_say(m: ModelView)
    ensures
        forall|d: DeferMode| m.defer_mode == #[trigger] defer_name(d) ==> mode_of(m) == d,
        (forall|d: DeferMode| m.defer_mode != #[trigger] defer_name(d)) ==> mode_of(m)
            == DeferMode::Normal,
{
    assert forall|d: DeferMode| m.defer_mode == #[trigger] defer_name(d) implies mode_of(m) == d by {
        crate::provider::defer_name_reads_back(d);
    }
    if forall|d: DeferMode| m.defer_mode != #[trigger] defer_name(d) {
        assert(m.defer_mode != defer_name(DeferMode::Normal));
        assert(m.defer_mode != defer_name(DeferMode::Reference));
        assert(m.defer_mode != defer_name(DeferMode::ToolSearch));
        assert(m.defer_mode != defer_name(DeferMode::SystemTools));
    }
}

} // verus!
