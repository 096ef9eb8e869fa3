//! What holds of every merge and of every config that loads.

use vstd::prelude::*;

use crate::app::env::{expanded, EnvView};
use crate::config::agent::AgentView;
use crate::config::model::{entry_model, EntryView, ModelView, RefView};
use crate::config::provider::ProviderView;
use crate::config::server::{AuthMode, ServerView};
use crate::config::{
    agent_fault, agents_fault, config_fault, expanded_provider, merged, model_fault,
    models_fault, provider_known, ref_error, ref_model, refs_fault, resolution, server_fault,
    servers_fault, with_agents, with_models, with_providers, with_servers, Config, ConfigFile,
    ConfigView,
};
use crate::map::{map_of, map_of_rising, pairs_have_the_map, pairs_of, rising};
use crate::provider::Catalog;

verus! {

// ---------------------------------------------------------------- merging

/// Each provider of a list replaces its namesake, and no other.
proof fn providers_replace(
    base: Map<Seq<char>, ProviderView>,
    pairs: Seq<(Seq<char>, ProviderView)>,
    env: EnvView,
    name: Seq<char>,
)
    requires
        rising(pairs),
    ensures
        map_of(pairs).contains_key(name) ==> with_providers(base, pairs, env).index_opt(name)
            == Some(expanded_provider(map_of(pairs)[name], env)),
        !map_of(pairs).contains_key(name) ==> with_providers(base, pairs, env).index_opt(name)
            == base.index_opt(name),
    decreases pairs.len(),
{
    if pairs.len() > 0 {
        providers_replace(base, pairs.drop_last(), env, name);
    }
}

/// Each model of a list replaces its namesake, and no other.
proof fn models_replace(
    base: Map<Seq<char>, ModelView>,
    pairs: Seq<(Seq<char>, EntryView)>,
    name: Seq<char>,
)
    requires
        rising(pairs),
    ensures
        map_of(pairs).contains_key(name) ==> with_models(base, pairs).index_opt(name) == Some(
            entry_model(map_of(pairs)[name], name)->Ok_0,
        ),
        !map_of(pairs).contains_key(name) ==> with_models(base, pairs).index_opt(name)
            == base.index_opt(name),
    decreases pairs.len(),
{
    if pairs.len() > 0 {
        models_replace(base, pairs.drop_last(), name);
    }
}

/// Each agent of a list replaces its namesake, and no other.
proof fn agents_replace(
    base: Map<Seq<char>, AgentView>,
    pairs: Seq<(Seq<char>, AgentView)>,
    env: EnvView,
    name: Seq<char>,
)
    requires
        rising(pairs),
    ensures
        map_of(pairs).contains_key(name) ==> with_agents(base, pairs, env).index_opt(name) == Some(
            AgentView {
                system_file: expanded(map_of(pairs)[name].system_file, env),
                ..map_of(pairs)[name]
            },
        ),
        !map_of(pairs).contains_key(name) ==> with_agents(base, pairs, env).index_opt(name)
            == base.index_opt(name),
    decreases pairs.len(),
{
    if pairs.len() > 0 {
        agents_replace(base, pairs.drop_last(), env, name);
    }
}

/// Each server of a list replaces its namesake, and no other.
proof fn servers_replace(
    base: Map<Seq<char>, ServerView>,
    pairs: Seq<(Seq<char>, ServerView)>,
    name: Seq<char>,
)
    requires
        rising(pairs),
    ensures
        map_of(pairs).contains_key(name) ==> with_servers(base, pairs).index_opt(name) == Some(
            map_of(pairs)[name],
        ),
        !map_of(pairs).contains_key(name) ==> with_servers(base, pairs).index_opt(name)
            == base.index_opt(name),
    decreases pairs.len(),
{
    if pairs.len() > 0 {
        servers_replace(base, pairs.drop_last(), name);
    }
}

/// A document that is merged over a config replaces whole entries, by name: an entry it declares stands as the
/// document has it, with nothing left of its namesake, and an entry it does not declare stays as it was.
pub proof fn merge_replaces_whole_entries(
    cfg: ConfigView,
    file: ConfigFile,
    env: EnvView,
    name: Seq<char>,
)
    ensures
        ({
            let m = merged(cfg, file, env);
            &&& m.providers.index_opt(name) == if file.providers@.contains_key(name) {
                Some(expanded_provider(file.providers@[name], env))
            } else {
                cfg.providers.index_opt(name)
            }
            &&& m.models.index_opt(name) == if file.models@.contains_key(name) {
                Some(entry_model(file.models@[name], name)->Ok_0)
            } else {
                cfg.models.index_opt(name)
            }
            &&& m.agents.index_opt(name) == if file.agents@.contains_key(name) {
                Some(
                    AgentView {
                        system_file: expanded(file.agents@[name].system_file, env),
                        ..file.agents@[name]
                    },
                )
            } else {
                cfg.agents.index_opt(name)
            }
            &&& m.mcp_servers.index_opt(name) == if file.mcp_servers@.contains_key(name) {
                Some(file.mcp_servers@[name])
            } else {
                cfg.mcp_servers.index_opt(name)
            }
        }),
{
    pairs_have_the_map(file.providers.pairs());
    pairs_have_the_map(file.models.pairs());
    pairs_have_the_map(file.agents.pairs());
    pairs_have_the_map(file.mcp_servers.pairs());
    providers_replace(cfg.providers, pairs_of(file.providers@), env, name);
    models_replace(cfg.models, pairs_of(file.models@), name);
    agents_replace(cfg.agents, pairs_of(file.agents@), env, name);
    servers_replace(cfg.mcp_servers, pairs_of(file.mcp_servers@), name);
}

// ---------------------------------------------------------------- validity

/// Models without a first fault are all without one.
proof fn all_models_pass(
    cfg: ConfigView,
    catalog: Catalog,
    pairs: Seq<(Seq<char>, ModelView)>,
    i: int,
    k: int,
)
    requires
        0 <= i <= k < pairs.len(),
        models_fault(cfg, catalog, pairs, i) is None,
    ensures
        model_fault(cfg, catalog, pairs[k].0, pairs[k].1) is None,
    decreases k - i,
{
    if i < k {
        all_models_pass(cfg, catalog, pairs, i + 1, k);
    }
}

/// Servers without a first fault are all without one.
proof fn all_servers_pass(pairs: Seq<(Seq<char>, ServerView)>, i: int, k: int)
    requires
        0 <= i <= k < pairs.len(),
        servers_fault(pairs, i) is None,
    ensures
        server_fault(pairs[k].0, pairs[k].1) is None,
    decreases k - i,
{
    if i < k {
        all_servers_pass(pairs, i + 1, k);
    }
}

/// Agents without a first fault are all without one.
proof fn all_agents_pass(cfg: ConfigView, pairs: Seq<(Seq<char>, AgentView)>, i: int, k: int)
    requires
        0 <= i <= k < pairs.len(),
        agents_fault(cfg, pairs, i) is None,
    ensures
        agent_fault(cfg, pairs[k].0, pairs[k].1) is None,
    decreases k - i,
{
    if i < k {
        all_agents_pass(cfg, pairs, i + 1, k);
    }
}

/// References without a first fault are all without one.
proof fn all_refs_pass(cfg: ConfigView, name: Seq<char>, refs: Seq<RefView>, i: int, k: int)
    requires
        0 <= i <= k < refs.len(),
        refs_fault(cfg, name, refs, i) is None,
    ensures
        ref_error(cfg, name, refs[k]) is None,
    decreases k - i,
{
    if i < k {
        all_refs_pass(cfg, name, refs, i + 1, k);
    }
}

/// In a config without a fault every reference of every agent names a model, and that model's provider is one
/// that the config declares or a built-in type.
pub proof fn valid_references_reach_a_provider(
    cfg: Config,
    catalog: Catalog,
    name: Seq<char>,
    k: int,
)
    requires
        config_fault(cfg@, catalog) is None,
        cfg@.agents.contains_key(name),
        0 <= k < cfg@.agents[name].models.len(),
    ensures
        ref_model(cfg@, cfg@.agents[name].models[k]) is Some,
        provider_known(cfg@, ref_model(cfg@, cfg@.agents[name].models[k])->0.provider),
{
    let agents = pairs_of(cfg@.agents);
    pairs_have_the_map(cfg.agents.pairs());
    map_of_rising(agents);
    let i = choose|i: int| 0 <= i < agents.len() && #[trigger] agents[i].0 == name;
    all_agents_pass(cfg@, agents, 0, i);
    let refs = cfg@.agents[name].models;
    assert(agents[i].1 == cfg@.agents[name]);
    all_refs_pass(cfg@, name, refs, 0, k);
    if let RefView::Entry(entry) = refs[k] {
        let models = pairs_of(cfg@.models);
        pairs_have_the_map(cfg.models.pairs());
        map_of_rising(models);
        let j = choose|j: int| 0 <= j < models.len() && #[trigger] models[j].0 == entry;
        all_models_pass(cfg@, catalog, models, 0, j);
        assert(models[j].1 == cfg@.models[entry]);
    }
}

/// In a config without a fault every agent resolves, to the model it lists first and — when that model names a
/// provider — to a provider that is known.
pub proof fn valid_agents_resolve(cfg: Config, catalog: Catalog, name: Seq<char>)
    requires
        config_fault(cfg@, catalog) is None,
        cfg@.agents.contains_key(name),
    ensures
        cfg@.agents[name].models.len() > 0,
        resolution(cfg@, name) matches Some(r) && Some(r.model) == ref_model(
            cfg@,
            cfg@.agents[name].models[0],
        ),
        resolution(cfg@, name) matches Some(r) && (r.model.provider.len() > 0 ==> provider_known(
            cfg@,
            r.provider_name,
        )),
{
    let agents = pairs_of(cfg@.agents);
    pairs_have_the_map(cfg.agents.pairs());
    map_of_rising(agents);
    let i = choose|i: int| 0 <= i < agents.len() && #[trigger] agents[i].0 == name;
    all_agents_pass(cfg@, agents, 0, i);
    assert(agents[i].1 == cfg@.agents[name]);
    valid_references_reach_a_provider(cfg, catalog, name, 0);
}

/// In a config without a fault a server that signs in has a URL, and a secret never stands without its client.
pub proof fn valid_servers_can_sign_in(cfg: Config, catalog: Catalog, name: Seq<char>)
    requires
        config_fault(cfg@, catalog) is None,
        cfg@.mcp_servers.contains_key(name),
    ensures
        ({
            let s = cfg@.mcp_servers[name];
            &&& s.auth == AuthMode::Oauth ==> s.url.len() > 0
            &&& s.client_id.len() > 0 ==> s.auth == AuthMode::Oauth
            &&& s.client_secret.len() > 0 ==> s.client_id.len() > 0
        }),
{
    let servers = pairs_of(cfg@.mcp_servers);
    pairs_have_the_map(cfg.mcp_servers.pairs());
    map_of_rising(servers);
    let i = choose|i: int| 0 <= i < servers.len() && #[trigger] servers[i].0 == name;
    all_servers_pass(servers, 0, i);
    assert(servers[i].1 == cfg@.mcp_servers[name]);
}

} // verus!
