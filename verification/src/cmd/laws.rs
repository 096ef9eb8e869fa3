//! What a run comes to: which agent, endpoint, model, key, prompt and message a command line stands for, and what
//! the children that it delegates to are made of.

use vstd::prelude::*;
use vstd::string::*;

use crate::app::env::EnvView;
use crate::cmd::args::{Cli, Invocation, Resume};
use crate::cmd::delegate::{
    agent_case, agents_case, child_key, plans_case, AgentRefView, ChildTools, DelegateFault,
    PlanView,
};
use crate::cmd::resolve::{
    agent_of, candidate_from, entry_serving, flag_warning, flagged, message_of, pair_model,
    prompt_of, resolution_of, run_case, Given, RunCase, SettingsView,
};
use crate::cmd::run::{connect_warnings, model_after, Connection};
use crate::config::flat::{entry_for, expanded_entry, type_for, FlatConfigView, FlatView};
use crate::config::meaning::{agents_run_their_first_model, stands_at_its_endpoint};
use crate::config::model::{ModelView, RefView};
use crate::config::{covered, resolution, ConfigView, ResolvedView};
use crate::map::pairs_of;
use crate::provider::{kind_name, kind_named, Catalog, ProviderKind};
use crate::session::SessionMeta;
use crate::text::{first_at, first_at_bounds, first_at_is, trimmed};

verus! {

// ---------------------------------------------------------------- the model flag

/// A candidate that serves a pair is one of the listed entries, as it is declared.
proof fn candidates_serve(
    cfg: ConfigView,
    list: Seq<RefView>,
    provider: Seq<char>,
    id: Seq<char>,
    i: int,
)
    requires
        0 <= i <= list.len(),
    ensures
        candidate_from(cfg, list, provider, id, i) matches Some(m) ==> {
            &&& m.provider == provider
            &&& m.id == id
            &&& exists|name: Seq<char>| #[trigger]
                list.contains(RefView::Entry(name)) && cfg.models.contains_key(name) && m == (
                ModelView { provider, ..cfg.models[name] })
        },
        candidate_from(cfg, list, provider, id, i) is None ==> forall|k: int|
            i <= k < list.len() ==> (#[trigger] list[k] matches RefView::Entry(name) ==> !(
            cfg.models.contains_key(name) && cfg.models[name].id == id && (if cfg.models[name].provider.len()
                > 0 {
                cfg.models[name].provider
            } else {
                name
            }) == provider)),
    decreases list.len() - i,
{
    if i < list.len() {
        candidates_serve(cfg, list, provider, id, i + 1);
        if list[i] is Entry {
            assert(list.contains(RefView::Entry(list[i]->Entry_0)));
        }
    }
}

/// An entry that serves a pair is one of those declared, as it is declared.
proof fn entries_serve(
    pairs: Seq<(Seq<char>, ModelView)>,
    provider: Seq<char>,
    id: Seq<char>,
    i: int,
)
    requires
        0 <= i <= pairs.len(),
    ensures
        entry_serving(pairs, provider, id, i) matches Some(m) ==> {
            &&& m.provider == provider
            &&& m.id == id
            &&& exists|k: int|
                0 <= k < pairs.len() && m == (ModelView { provider, ..(#[trigger] pairs[k]).1 })
        },
        entry_serving(pairs, provider, id, i) is None ==> forall|k: int|
            i <= k < pairs.len() ==> !((#[trigger] pairs[k]).1.id == id && (if pairs[k].1.provider.len()
                > 0 {
                pairs[k].1.provider
            } else {
                pairs[k].0
            }) == provider),
    decreases pairs.len() - i,
{
    if i < pairs.len() {
        entries_serve(pairs, provider, id, i + 1);
    }
}

/// The model of a pair has that provider and that id, whatever else is declared of it; what is declared comes from
/// an entry for the same pair, one of the agent's own first, and a pair that no entry declares has nothing else.
pub proof fn a_pair_is_that_provider_and_id(
    cfg: ConfigView,
    list: Seq<RefView>,
    provider: Seq<char>,
    id: Seq<char>,
)
    ensures
        ({
            let m = pair_model(cfg, list, provider, id);
            &&& m.provider == provider
            &&& m.id == id
            &&& (exists|k: int|
                0 <= k < list.len() && (#[trigger] list[k] matches RefView::Entry(name)
                    && cfg.models.contains_key(name) && cfg.models[name].id == id && (
                if cfg.models[name].provider.len() > 0 {
                    cfg.models[name].provider
                } else {
                    name
                }) == provider)) ==> (exists|name: Seq<char>| #[trigger]
                list.contains(RefView::Entry(name)) && cfg.models.contains_key(name) && m == (
                ModelView { provider, ..cfg.models[name] }))
            &&& (forall|k: int|
                0 <= k < list.len() ==> !((#[trigger] list[k]) is Entry)) && (forall|k: int|
                0 <= k < pairs_of(cfg.models).len() ==> (#[trigger] pairs_of(cfg.models)[k]).1.id
                    != id) ==> m.effort.len() == 0 && m.temperature is None && m.top_p is None
                && m.context_window.len() == 0 && m.defer_mode.len() == 0 && !m.image
        }),
{
    candidates_serve(cfg, list, provider, id, 0);
    entries_serve(pairs_of(cfg.models), provider, id, 0);
}

/// A flag moves the run to the provider of the model it names. After any flag that is not empty, the run stands at
/// the endpoint of its provider, which is the one its model runs at; the agent stays as it is.
pub proof fn a_flag_moves_the_run(r: ResolvedView, cfg: ConfigView, flag: Seq<char>)
    requires
        stands_at_its_endpoint(cfg, r),
    ensures
        ({
            let f = flagged(r, cfg, flag);
            &&& stands_at_its_endpoint(cfg, f)
            &&& f.name == r.name && f.agent == r.agent && f.agent_name == r.agent_name
            &&& flag.len() > 0 ==> f.model.provider == f.provider_name
            &&& flag.len() == 0 ==> f == (ResolvedView {
                model: ModelView { id: Seq::empty(), ..r.model },
                ..r
            })
        }),
{
    let colon = first_at(flag, ':');
    let left = flag.take(colon);
    let right = flag.skip(colon + 1);
    a_pair_is_that_provider_and_id(cfg, r.agent.models, left, right);
    a_pair_is_that_provider_and_id(cfg, r.agent.models, r.provider_name, flag);
}

/// A flag that is the name of one of the agent's entries brings that entry with it: the run moves to the provider
/// that the entry names, or to the entry's own name where it names none, and everything the entry declares comes
/// with it.
pub proof fn a_candidate_brings_its_provider(r: ResolvedView, cfg: ConfigView, flag: Seq<char>)
    requires
        !flag.contains(':'),
        flag.len() > 0,
        cfg.models.contains_key(flag),
        r.agent.models.contains(RefView::Entry(flag)),
    ensures
        ({
            let f = flagged(r, cfg, flag);
            let p = if cfg.models[flag].provider.len() > 0 {
                cfg.models[flag].provider
            } else {
                flag
            };
            &&& f.provider_name == p
            &&& f.model == (ModelView { provider: p, ..cfg.models[flag] })
            &&& stands_at_its_endpoint(cfg, f)
        }),
{
    first_at_bounds(flag, ':');
    let k = first_at(flag, ':');
    if k < flag.len() {
        assert(flag[k] == ':');
    }
}

/// A flag that is a pair with a known provider moves the run to that provider and picks that id; a star moves it
/// and leaves the model to be chosen.
pub proof fn a_pair_moves_the_run(r: ResolvedView, cfg: ConfigView, p: Seq<char>, id: Seq<char>)
    requires
        !p.contains(':'),
        cfg.providers.contains_key(p) || kind_named(p) is Some,
        id.len() > 0,
    ensures
        ({
            let f = flagged(r, cfg, p + ":"@ + id);
            &&& f.provider_name == p
            &&& f.model.provider == p
            &&& stands_at_its_endpoint(cfg, f)
            &&& id != "*"@ ==> f.model.id == id
            &&& id == "*"@ ==> f.model.id.len() == 0
        }),
{
    reveal_strlit(":");
    let flag = p + ":"@ + id;
    first_at_is(flag, ':', p.len() as int);
    assert(flag.take(p.len() as int) =~= p);
    assert(flag.skip(p.len() as int + 1) =~= id);
    a_pair_is_that_provider_and_id(cfg, r.agent.models, p, id);
}

/// Any other flag is a model id at the provider that the run is at.
pub proof fn a_bare_id_stays_at_the_provider(r: ResolvedView, cfg: ConfigView, flag: Seq<char>)
    requires
        !flag.contains(':'),
        flag.len() > 0,
        !cfg.models.contains_key(flag) || !r.agent.models.contains(RefView::Entry(flag)),
    ensures
        ({
            let f = flagged(r, cfg, flag);
            &&& f.provider_name == r.provider_name
            &&& f.provider_type == r.provider_type && f.provider == r.provider
            &&& f.model.provider == r.provider_name
            &&& f.model.id == flag
        }),
{
    first_at_bounds(flag, ':');
    let k = first_at(flag, ':');
    if k < flag.len() {
        assert(flag[k] == ':');
    }
    a_pair_is_that_provider_and_id(cfg, r.agent.models, r.provider_name, flag);
}

/// A model outside the agent's own is one warning, which names it and the agent; one that they cover is none.
pub proof fn only_models_outside_are_warned_of(r: ResolvedView, cfg: ConfigView)
    ensures
        covered(cfg, r.agent.models, r.provider_name, r.model.id) ==> flag_warning(r, cfg).len() == 0,
        r.model.id.len() == 0 || r.agent.models.len() == 0 ==> flag_warning(r, cfg).len() == 0,
        r.agent.models.len() > 0 && r.model.id.len() > 0 && !covered(
            cfg,
            r.agent.models,
            r.provider_name,
            r.model.id,
        ) ==> flag_warning(r, cfg).len() == 1,
{
}

// ---------------------------------------------------------------- the run

/// The agent of a run is the one that was named, or the default one where the config has it.
pub proof fn a_run_names_its_agent(inv: Invocation, cfg: ConfigView)
    ensures
        inv.agent matches Some(name) ==> agent_of(inv, cfg) == Some(name@),
        inv.agent is None && cfg.agents.contains_key("default"@) ==> agent_of(inv, cfg) == Some(
            "default"@,
        ),
        inv.agent is None && !cfg.agents.contains_key("default"@) ==> agent_of(inv, cfg) is None,
        inv.args.model is None ==> resolution_of(inv, cfg) == (match agent_of(inv, cfg) {
            Some(name) => resolution(cfg, name),
            None => None,
        }),
{
}

/// A run stands at the endpoint that its model runs at, flag or no flag, and it is the agent's own run.
pub proof fn a_run_stands_at_its_endpoint(inv: Invocation, cfg: ConfigView)
    ensures
        resolution_of(inv, cfg) matches Some(r) ==> {
            &&& stands_at_its_endpoint(cfg, r)
            &&& agent_of(inv, cfg) == Some(r.name)
            &&& cfg.agents.contains_key(r.name) && r.agent == cfg.agents[r.name]
        },
        resolution_of(inv, cfg) is None == match agent_of(inv, cfg) {
            Some(name) => !cfg.agents.contains_key(name),
            None => true,
        },
{
    if agent_of(inv, cfg) is Some {
        let name = agent_of(inv, cfg)->0;
        if cfg.agents.contains_key(name) {
            agents_run_their_first_model(cfg, name);
            if inv.args.model is Some {
                a_flag_moves_the_run(resolution(cfg, name)->0, cfg, inv.args.model->0@);
            }
        }
    }
}

/// The system prompt is the flag's; without one the agent's text; and without that what its file holds.
pub proof fn the_flag_is_the_prompt(inv: Invocation, r: ResolvedView, given: Given)
    ensures
        inv.args.system matches Some(flag) ==> prompt_of(inv, r, given) == Ok::<
            Seq<char>,
            Seq<char>,
        >(flag@),
        inv.args.system is None && r.agent.system.len() > 0 ==> prompt_of(inv, r, given) == Ok::<
            Seq<char>,
            Seq<char>,
        >(r.agent.system),
        inv.args.system is None && r.agent.system.len() == 0 && r.agent.system_file.len() == 0
            ==> (prompt_of(inv, r, given) matches Ok(p) && p.len() == 0),
        inv.args.system is None && r.agent.system.len() == 0 && r.agent.system_file.len() > 0
            ==> prompt_of(inv, r, given) is Ok == given.system is Ok,
{
}

/// The message is as typed, and that of a dash is what was read, without the white space around it; a message that
/// is empty is refused either way.
pub proof fn the_message_is_as_given(inv: Invocation, given: Given)
    ensures
        inv.args.message is None ==> message_of(inv, given) == Ok::<Option<Seq<char>>, RunCase>(None),
        inv.args.message matches Some(m) ==> {
            &&& m@.len() == 0 ==> message_of(inv, given) == Err::<Option<Seq<char>>, RunCase>(
                RunCase::MessageEmpty,
            )
            &&& m@.len() > 0 && m@ != "-"@ ==> message_of(inv, given) == Ok::<
                Option<Seq<char>>,
                RunCase,
            >(Some(m@))
            &&& m@ == "-"@ ==> match given.stdin {
                Err(e) => message_of(inv, given) == Err::<Option<Seq<char>>, RunCase>(
                    RunCase::StdinFailed(e@),
                ),
                Ok(data) => {
                    let t = trimmed(crate::text::lossy_text(data@));
                    &&& t.len() > 0 ==> message_of(inv, given) == Ok::<Option<Seq<char>>, RunCase>(
                        Some(t),
                    )
                    &&& t.len() == 0 ==> message_of(inv, given) == Err::<
                        Option<Seq<char>>,
                        RunCase,
                    >(RunCase::StdinEmpty)
                },
            }
        },
{
    reveal_strlit("-");
}

/// A run that is ready goes to the endpoint of its model with everything that was asked for: the type, the url and
/// the model of the resolution, the key of the environment before that of the config, the prompt, the message, the
/// agent's temperature before the model's, and the caps and formats of the command line.
pub proof fn a_ready_run_is_what_was_asked_for(
    inv: Invocation,
    cfg: ConfigView,
    catalog: Catalog,
    env: EnvView,
    given: Given,
)
    ensures
        run_case(inv, cfg, catalog, env, given) matches RunCase::Ready(s) ==> {
            let r = resolution_of(inv, cfg)->0;
            let var = catalog.key_variable(r.provider_type);
            &&& resolution_of(inv, cfg) is Some
            &&& s.resolved == r
            &&& s.name == r.name
            &&& s.raw_type == r.provider_type
            &&& s.base_url == r.provider.url
            &&& s.model == r.model.id
            &&& env.vars.contains_key(var) && env.vars[var].len() > 0 ==> s.api_key == env.vars[var]
            &&& !(env.vars.contains_key(var) && env.vars[var].len() > 0) ==> s.api_key
                == r.provider.key && s.api_key.len() > 0
            &&& prompt_of(inv, r, given) == Ok::<Seq<char>, Seq<char>>(s.system)
            &&& message_of(inv, given) == Ok::<Option<Seq<char>>, RunCase>(s.message)
            &&& r.agent.temperature is Some ==> s.temperature == r.agent.temperature
            &&& r.agent.temperature is None ==> s.temperature == r.model.temperature
            &&& s.agent_mode == r.agent.workspace
            &&& inv.args.max_turns > 0 && inv.args.max_turns <= u32::MAX ==> (
            s.max_turns matches Some(n) && n == inv.args.max_turns)
            &&& inv.args.max_turns <= 0 ==> s.max_turns is None
            &&& inv.args.output_format matches Some(f) ==> s.output_format_raw == Some(f@)
            &&& inv.args.output_format is None ==> s.output_format_raw is None
            &&& inv.resume matches Some(Resume::Id(id)) ==> s.resume == Some(id@)
            &&& !(inv.resume matches Some(Resume::Id(_))) ==> s.resume is None
        },
{
    a_run_stands_at_its_endpoint(inv, cfg);
}

/// A run with an agent, a key, a message and a model is ready: nothing else is asked of it.
pub proof fn a_complete_run_is_ready(
    inv: Invocation,
    cfg: ConfigView,
    catalog: Catalog,
    env: EnvView,
    given: Given,
)
    requires
        resolution_of(inv, cfg) is Some,
        prompt_of(inv, resolution_of(inv, cfg)->0, given) is Ok,
        resolution_of(inv, cfg)->0.provider.key.len() > 0,
        message_of(inv, given) is Ok,
        resolution_of(inv, cfg)->0.model.id.len() > 0,
        resolution_of(inv, cfg)->0.agent.temperature is None,
        resolution_of(inv, cfg)->0.model.temperature is None,
    ensures
        run_case(inv, cfg, catalog, env, given) is Ready,
{
}

/// A session gives its model only to a run that names none, and only where it was recorded under the same type.
pub proof fn a_session_gives_its_model(settings: SettingsView, kind: ProviderKind, meta: SessionMeta)
    ensures
        settings.model.len() > 0 ==> model_after(settings, kind, meta) == settings.model,
        settings.model.len() == 0 && meta.provider@ == kind_name(kind) ==> model_after(
            settings,
            kind,
            meta,
        ) == meta.model@,
        settings.model.len() == 0 && meta.provider@ != kind_name(kind) ==> model_after(
            settings,
            kind,
            meta,
        ).len() == 0,
{
}

/// Exactly the servers that did not connect are warned of, each by its name and its error, in order.
pub proof fn failed_connections_are_named(v: Seq<Connection>, n: int)
    requires
        0 <= n < v.len(),
    ensures
        connect_warnings(v, 0).len() == 0,
        v[n].connected ==> connect_warnings(v, n + 1) == connect_warnings(v, n),
        !v[n].connected ==> connect_warnings(v, n + 1) == connect_warnings(v, n)
            + "Warning: mcp server "@ + v[n].name@ + ": "@ + v[n].error@ + "\n"@,
{
    if !v[n].connected {
        assert(connect_warnings(v, n + 1) =~= connect_warnings(v, n) + "Warning: mcp server "@
            + v[n].name@ + ": "@ + v[n].error@ + "\n"@);
    }
}

/// A flag of a run that stands before another verb is misplaced; without a verb, or without a flag, nothing is.
pub proof fn flags_belong_behind_the_verb(c: Cli)
    ensures
        c.misplacement() is Some == (c.command is Some && (c.run.message is Some || c.run.model
            is Some || c.run.system is Some || c.run.mcp@.len() > 0 || c.run.no_save
            || c.run.max_turns != 0 || c.run.output_format is Some)),
{
}

// ---------------------------------------------------------------- delegation

/// A child's plan is its provider's entry with every configured toolset but the one that delegates, each with its
/// own settings; its type is the one that the entry declares, or the provider's name where it declares none.
pub proof fn children_keep_their_toolsets(cfg: FlatConfigView, name: Seq<char>, p: Seq<char>)
    ensures
        agent_case(cfg, name, p) matches Ok(plan) ==> {
            &&& cfg.providers.contains_key(p) ==> plan.entry == cfg.providers[p]
            &&& forall|k: Seq<char>| k != "delegate"@ ==> #[trigger] plan.tools.contains_key(k)
                == plan.entry.tools.contains_key(k)
            &&& forall|k: Seq<char>| #[trigger]
                plan.tools.contains_key(k) ==> plan.tools[k] == plan.entry.tools[k]
            &&& !plan.tools.contains_key("delegate"@)
            &&& plan.entry.kind.len() > 0 ==> plan.provider_type == plan.entry.kind
            &&& plan.entry.kind.len() == 0 ==> plan.provider_type == p
            &&& plan.entry.model.len() > 0
        },
        agent_case(cfg, name, p) is Ok && cfg.providers.contains_key(p) ==> forall|k: Seq<char>|
            k != "delegate"@ ==> (#[trigger] cfg.providers[p].tools.contains_key(k)
                == agent_case(cfg, name, p)->Ok_0.tools.contains_key(k)),
{
}

/// An agent with a declared provider that names a model and sets nothing out of range passes; an agent without a
/// provider, at one that is not known, or without a model does not, and the fault names the agent.
pub proof fn agents_with_a_model_pass(cfg: FlatConfigView, name: Seq<char>, p: Seq<char>)
    ensures
        p.len() > 0 && cfg.providers.contains_key(p) && cfg.providers[p].model.len() > 0
            && cfg.providers[p].effort.len() == 0 && cfg.providers[p].temperature is None
            && cfg.providers[p].top_p is None ==> agent_case(cfg, name, p) is Ok,
        p.len() == 0 ==> agent_case(cfg, name, p) == Err::<PlanView, DelegateFault>(
            DelegateFault::NoProvider(name),
        ),
        p.len() > 0 && !cfg.providers.contains_key(p) && kind_named(p) is None ==> (agent_case(
            cfg,
            name,
            p,
        ) matches Err(DelegateFault::Provider(n, _)) && n == name),
        p.len() > 0 && cfg.providers.contains_key(p) && cfg.providers[p].model.len() == 0
            ==> agent_case(cfg, name, p) == Err::<PlanView, DelegateFault>(
            DelegateFault::NoModel(name, p),
        ),
{
}

/// Every agent that was checked is known by its name, with its own description, and counts as reading only exactly
/// where all of its tools may run beside others; each has its own plan.
pub proof fn agents_are_known_by_their_names(
    cfg: FlatConfigView,
    pairs: Seq<(Seq<char>, AgentRefView)>,
    built: Seq<ChildTools>,
    n: int,
    i: int,
)
    requires
        0 <= i < n <= pairs.len(),
        n <= built.len(),
        forall|a: int, b: int| 0 <= a < b < pairs.len() ==> pairs[a].0 != pairs[b].0,
        agents_case(cfg, pairs, built, n) is Ok,
    ensures
        ({
            let known = agents_case(cfg, pairs, built, n)->Ok_0;
            let plans = plans_case(cfg, pairs, n);
            &&& known.contains_key(pairs[i].0)
            &&& known[pairs[i].0].description == pairs[i].1.description
            &&& known[pairs[i].0].read_only == (forall|k: int|
                0 <= k < built[i].tools@.len() ==> (#[trigger] built[i].tools@[k]).1)
            &&& built[i].warnings@.len() == 0
            &&& plans.contains_key(pairs[i].0)
            &&& agent_case(cfg, pairs[i].0, pairs[i].1.provider) == Ok::<PlanView, DelegateFault>(
                plans[pairs[i].0],
            )
        }),
    decreases n,
{
    if i < n - 1 {
        agents_are_known_by_their_names(cfg, pairs, built, n - 1, i);
        assert(pairs[i].0 != pairs[n - 1].0);
    }
}

/// A child's key is that of its own type in the environment, else that of its entry.
pub proof fn a_child_has_its_own_key(plan: PlanView, catalog: Catalog, env: EnvView)
    ensures
        ({
            let var = catalog.key_variable(plan.provider_type);
            &&& env.vars.contains_key(var) && env.vars[var].len() > 0 ==> child_key(
                plan,
                catalog,
                env,
            ) == Some(env.vars[var])
            &&& !(env.vars.contains_key(var) && env.vars[var].len() > 0) && plan.entry.key.len() > 0
                ==> child_key(plan, catalog, env) == Some(plan.entry.key)
            &&& !(env.vars.contains_key(var) && env.vars[var].len() > 0) && plan.entry.key.len()
                == 0 ==> child_key(plan, catalog, env) is None
        }),
{
}

/// A provider of the flat layout has the type it declares, or its name without one; only its key, its url and its
/// prompt file refer to the environment.
pub proof fn flat_providers_have_their_type(
    cfg: FlatConfigView,
    name: Seq<char>,
    e: FlatView,
    env: EnvView,
)
    ensures
        cfg.providers.contains_key(name) ==> entry_for(cfg, name) == cfg.providers[name],
        cfg.providers.contains_key(name) && cfg.providers[name].kind.len() > 0 ==> type_for(
            cfg,
            name,
        ) == cfg.providers[name].kind,
        !cfg.providers.contains_key(name) || cfg.providers[name].kind.len() == 0 ==> type_for(
            cfg,
            name,
        ) == name,
        expanded_entry(e, env) == (FlatView {
            key: crate::app::env::expanded(e.key, env),
            url: crate::app::env::expanded(e.url, env),
            system_file: crate::app::env::expanded(e.system_file, env),
            ..e
        }),
{
}

} // verus!
