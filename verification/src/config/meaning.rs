//! What a config means: which endpoint a name stands for, which model an agent runs, which servers it selects, and
//! how the files of a stack add up.

use vstd::prelude::*;
use vstd::string::*;

use crate::app::env::{expanded, value_of, EnvView};
use crate::config::agent::AgentView;
use crate::config::error::{ConfigError, ConfigErrorView};
use crate::config::laws::merge_replaces_whole_entries;
use crate::config::model::{entry_model, ref_of, EntryView, ModelView, RefView};
use crate::config::provider::{key_from, key_value, KeyView, ProviderView};
use crate::config::server::{AuthMode, McpServerConfig, ServerView};
use crate::config::{
    agents_fault, config_fault, covered, endpoint_entry, endpoint_kind, expanded_provider,
    file_step, files_step, first_unknown, model_fault, model_warning, models_fault, moved,
    ref_covers, ref_error, refs_fault, resolution, selects, server_fault, servers_fault,
    source_list, ConfigFile, ConfigView, FileRead, ResolvedView,
};
use crate::map::{pairs_of, StrMap};
use crate::provider::{kind_named, Catalog};
use crate::text::{begins, first_at, trimmed};

verus! {

// ---------------------------------------------------------------- endpoints

/// Whether a resolution stands at the endpoint that its provider name stands for: the entry of that name, with
/// the type it declares or, without one, the name itself; a name without an entry is a type, and has neither key
/// nor url.
pub open spec fn stands_at_its_endpoint(cfg: ConfigView, r: ResolvedView) -> bool {
    if cfg.providers.contains_key(r.provider_name) {
        &&& r.provider == cfg.providers[r.provider_name]
        &&& cfg.providers[r.provider_name].kind.len() > 0 ==> r.provider_type
            == cfg.providers[r.provider_name].kind
        &&& cfg.providers[r.provider_name].kind.len() == 0 ==> r.provider_type == r.provider_name
    } else {
        &&& r.provider_type == r.provider_name
        &&& r.provider.kind.len() == 0 && r.provider.key.len() == 0 && r.provider.url.len() == 0
    }
}

/// The endpoint that a name stands for has the type, the key and the url that its entry declares; only an entry
/// without a type, or a name without an entry, has its name as its type.
pub proof fn endpoints_have_their_declared_type(cfg: ConfigView, name: Seq<char>)
    ensures
        cfg.providers.contains_key(name) && cfg.providers[name].kind.len() > 0 ==> endpoint_kind(
            cfg,
            name,
        ) == cfg.providers[name].kind,
        cfg.providers.contains_key(name) && cfg.providers[name].kind.len() == 0 ==> endpoint_kind(
            cfg,
            name,
        ) == name,
        !cfg.providers.contains_key(name) ==> endpoint_kind(cfg, name) == name,
        cfg.providers.contains_key(name) ==> endpoint_entry(cfg, name) == cfg.providers[name],
        !cfg.providers.contains_key(name) ==> endpoint_entry(cfg, name).key.len() == 0
            && endpoint_entry(cfg, name).url.len() == 0,
{
}

/// A resolution that moves to a provider stands at its endpoint, and keeps the agent and everything of the model
/// but the provider it runs at.
pub proof fn moving_reaches_the_endpoint(cfg: ConfigView, r: ResolvedView, name: Seq<char>)
    ensures
        ({
            let m = moved(cfg, r, name);
            &&& m.provider_name == name
            &&& m.model.provider == name
            &&& stands_at_its_endpoint(cfg, m)
            &&& m.name == r.name && m.agent == r.agent && m.agent_name == r.agent_name
            &&& m.model == (ModelView { provider: name, ..r.model })
        }),
{
}

/// A key in the environment comes before the one in the config; a key is missing only where neither has one.
pub proof fn the_environment_keeps_the_key(var: Seq<char>, entry: ProviderView, env: EnvView)
    ensures
        ({
            let k = key_from(var, entry, env);
            &&& env.vars.contains_key(var) && env.vars[var].len() > 0 ==> k == KeyView::Env(
                var,
                env.vars[var],
            ) && key_value(k) == Some(env.vars[var])
            &&& (!env.vars.contains_key(var) || env.vars[var].len() == 0) && entry.key.len() > 0
                ==> k == KeyView::Config(entry.key) && key_value(k) == Some(entry.key)
            &&& (!env.vars.contains_key(var) || env.vars[var].len() == 0) && entry.key.len() == 0
                ==> k == KeyView::Missing(var) && key_value(k) is None
        }),
{
}

// ---------------------------------------------------------------- agents and models

/// An agent runs under its own name with its own settings, at the endpoint of its first model: an entry brings
/// everything it declares, and its own name where it names no provider; a pair is that provider and that id; and
/// a whole provider leaves the model to be chosen.
pub proof fn agents_run_their_first_model(cfg: ConfigView, name: Seq<char>)
    requires
        cfg.agents.contains_key(name),
    ensures
        resolution(cfg, name) matches Some(r) && {
            let models = cfg.agents[name].models;
            &&& r.name == name && r.agent_name == name
            &&& r.agent == cfg.agents[name]
            &&& stands_at_its_endpoint(cfg, r)
            &&& models.len() > 0 ==> match models[0] {
                RefView::Entry(e) => cfg.models.contains_key(e) ==> {
                    &&& r.model.provider == r.provider_name || r.model.provider.len() == 0
                    &&& cfg.models[e].provider.len() > 0 ==> r.provider_name
                        == cfg.models[e].provider
                    &&& cfg.models[e].provider.len() == 0 && e.len() > 0 ==> r.provider_name == e
                    &&& r.model == (ModelView { provider: r.model.provider, ..cfg.models[e] })
                },
                RefView::Inline(p, id) => {
                    &&& p.len() > 0 ==> r.provider_name == p
                    &&& r.model.id == id
                    &&& r.model.effort.len() == 0 && r.model.temperature is None
                        && r.model.context_window.len() == 0 && r.model.defer_mode.len() == 0
                },
                RefView::All(p) => {
                    &&& p.len() > 0 ==> r.provider_name == p
                    &&& r.model.id.len() == 0
                },
            }
        },
{
}

/// An agent that no config declares does not resolve.
pub proof fn unknown_agents_do_not_resolve(cfg: ConfigView, name: Seq<char>)
    ensures
        resolution(cfg, name) is Some == cfg.agents.contains_key(name),
{
}

/// What an agent's models cover: an entry its own model, at the provider it names or its own name; a pair that
/// model; and a whole provider every model of it.
pub proof fn models_cover_what_they_name(
    cfg: ConfigView,
    refs: Seq<RefView>,
    i: int,
    p: Seq<char>,
    id: Seq<char>,
)
    requires
        0 <= i < refs.len(),
    ensures
        refs[i] == RefView::Inline(p, id) ==> covered(cfg, refs, p, id),
        refs[i] == RefView::All(p) ==> covered(cfg, refs, p, id),
        refs[i] matches RefView::Entry(e) ==> (cfg.models.contains_key(e) && cfg.models[e].id == id
            && p == (if cfg.models[e].provider.len() > 0 { cfg.models[e].provider } else { e })
            ==> covered(cfg, refs, p, id)),
        covered(cfg, refs, p, id) ==> exists|k: int|
            0 <= k < refs.len() && match #[trigger] refs[k] {
                RefView::Inline(q, want) => q == p && want == id,
                RefView::All(q) => q == p,
                RefView::Entry(e) => cfg.models.contains_key(e) && cfg.models[e].id == id && (
                cfg.models[e].provider == p || (cfg.models[e].provider.len() == 0 && e == p)),
            },
{
    if refs[i] == RefView::Inline(p, id) || refs[i] == RefView::All(p) {
        assert(ref_covers(cfg, refs[i], p, id));
    }
    if refs[i] is Entry {
        if cfg.models.contains_key(refs[i]->Entry_0) && cfg.models[refs[i]->Entry_0].id == id && p
            == (if cfg.models[refs[i]->Entry_0].provider.len() > 0 {
            cfg.models[refs[i]->Entry_0].provider
        } else {
            refs[i]->Entry_0
        }) {
            assert(ref_covers(cfg, refs[i], p, id));
        }
    }
    if covered(cfg, refs, p, id) {
        let k = choose|k: int| 0 <= k < refs.len() && #[trigger] ref_covers(cfg, refs[k], p, id);
        assert(ref_covers(cfg, refs[k], p, id));
    }
}

/// A model reference is read around its first colon: a text without one names an entry; with one it is a provider
/// and an id, or the provider alone for a star; and white space around either does not count.
pub proof fn references_are_read_at_the_colon(p: Seq<char>, id: Seq<char>, s: Seq<char>)
    requires
        s == p + ":"@ + id,
        !p.contains(':'),
        trimmed(s) == s,
        trimmed(p) == p,
        trimmed(id) == id,
        p.len() > 0,
    ensures
        id.len() > 0 && id != "*"@ ==> ref_of(s) == Some(RefView::Inline(p, id)),
        id == "*"@ ==> ref_of(s) == Some(RefView::All(p)),
        id.len() == 0 ==> ref_of(s) is None,
        ref_of(p) == Some(RefView::Entry(p)),
{
    reveal_strlit(":");
    reveal_strlit("*");
    crate::text::first_at_is(s, ':', p.len() as int);
    assert(s.take(p.len() as int) =~= p);
    assert(s.skip(p.len() as int + 1) =~= id);
    crate::text::first_at_bounds(p, ':');
    let k = first_at(p, ':');
    if k < p.len() {
        assert(p[k] == ':');
    }
}

/// A short model entry is the pair it spells, with nothing else declared; a full one is taken as it is.
pub proof fn short_entries_are_pairs(name: Seq<char>, s: Seq<char>, m: ModelView)
    ensures
        entry_model(EntryView::Full(m), name) == Ok::<ModelView, ConfigErrorView>(m),
        ref_of(s) matches Some(RefView::Inline(p, id)) ==> (entry_model(
            EntryView::Shorthand(s),
            name,
        ) matches Ok(v) && v.provider == p && v.id == id && v.context_window.len() == 0
            && v.effort.len() == 0 && v.temperature is None && v.top_p is None && !v.image
            && v.defer_mode.len() == 0),
        !(ref_of(s) matches Some(RefView::Inline(_, _))) ==> (entry_model(
            EntryView::Shorthand(s),
            name,
        ) matches Err(ConfigErrorView::Model(n, _)) && n == name),
{
}

// ---------------------------------------------------------------- servers

/// The first name that no server has is one of the names, and all before it have one.
proof fn first_unknown_is(servers: Map<Seq<char>, ServerView>, names: Seq<Seq<char>>, i: int)
    requires
        0 <= i <= names.len(),
    ensures
        first_unknown(servers, names, i) is None ==> forall|k: int|
            i <= k < names.len() ==> servers.contains_key(#[trigger] names[k]),
        first_unknown(servers, names, i) matches Some(n) ==> names.contains(n)
            && !servers.contains_key(n),
    decreases names.len() - i,
{
    if i < names.len() && servers.contains_key(names[i]) {
        first_unknown_is(servers, names, i + 1);
    }
}

/// An agent gets every server, or exactly those it names, each as it is declared; a name that no server has is an
/// error that tells it.
pub proof fn agents_get_the_servers_they_name(
    r: Result<StrMap<McpServerConfig>, ConfigError>,
    servers: Map<Seq<char>, ServerView>,
    wanted: Option<Seq<Seq<char>>>,
)
    requires
        selects(r, servers, wanted),
    ensures
        wanted is None ==> (r matches Ok(m) && m@ == servers),
        wanted matches Some(names) ==> {
            &&& r is Ok == (forall|k: int|
                0 <= k < names.len() ==> servers.contains_key(#[trigger] names[k]))
            &&& r matches Ok(m) ==> forall|n: Seq<char>|
                {
                    &&& #[trigger] m@.contains_key(n) == (names.contains(n) && servers.contains_key(
                        n,
                    ))
                    &&& m@.contains_key(n) ==> m@[n] == servers[n]
                }
            &&& r matches Err(e) ==> (e@ matches ConfigErrorView::UnknownMcpServer(n)
                && names.contains(n) && !servers.contains_key(n))
        },
{
    if wanted is Some {
        let names = wanted->0;
        first_unknown_is(servers, names, 0);
        if r is Ok {
            let m = r->Ok_0@;
            assert forall|n: Seq<char>|
                {
                    &&& #[trigger] m.contains_key(n) == (names.contains(n) && servers.contains_key(n))
                    &&& m.contains_key(n) ==> m[n] == servers[n]
                } by {
                assert(names.to_set().contains(n) == names.contains(n));
            }
        }
        if first_unknown(servers, names, 0) is Some {
            let n = first_unknown(servers, names, 0)->0;
            let k = choose|k: int| 0 <= k < names.len() && names[k] == n;
            assert(!servers.contains_key(names[k]));
        }
    }
}

// ---------------------------------------------------------------- the files of a stack

/// Only the key and the url of a provider refer to the environment; its type is as written.
pub proof fn providers_expand_their_key_and_url(p: ProviderView, env: EnvView)
    ensures
        expanded_provider(p, env).kind == p.kind,
        expanded_provider(p, env).key == expanded(p.key, env),
        expanded_provider(p, env).url == expanded(p.url, env),
{
}

/// A variable's reference stands for its value, an unset one for nothing; what stands around references stays.
pub proof fn references_stand_for_their_values(
    a: Seq<char>,
    name: Seq<char>,
    b: Seq<char>,
    env: EnvView,
)
    requires
        !a.contains('$'),
        name.len() > 0,
        !name.contains('}'),
    ensures
        value_of(name, env) matches Some(v) ==> expanded(a + "${"@ + name + "}"@ + b, env) == a + v
            + expanded(b, env),
        value_of(name, env) is None ==> expanded(a + "${"@ + name + "}"@ + b, env) == a + "${"@
            + name + "}"@ + expanded(b, env),
        value_of("env:"@ + name, env) == (if env.vars.contains_key(name) {
            Some(env.vars[name])
        } else {
            Some(Seq::empty())
        }),
    decreases a.len(),
{
    reveal_strlit("${");
    reveal_strlit("}");
    reveal_strlit("env:");
    let s = a + "${"@ + name + "}"@ + b;
    let e = "env:"@ + name;
    assert(e.subrange(0, 4) =~= "env:"@);
    assert(begins(e, "env:"@));
    assert(e.skip(4) =~= name);
    if env.vars.contains_key(name) && env.vars[name].len() == 0 {
        assert(env.vars[name] =~= Seq::<char>::empty());
    }
    if a.len() == 0 {
        let after = s.skip(2);
        assert(after =~= name + "}"@ + b);
        assert(s[0] == '$' && s[1] == '{');
        crate::text::first_at_is(after, '}', name.len() as int);
        assert(after.take(name.len() as int) =~= name);
        assert(after.skip(name.len() as int + 1) =~= b);
        assert(s.take(name.len() as int + 3) =~= "${"@ + name + "}"@);
        if value_of(name, env) is Some {
            let v = value_of(name, env)->0;
            assert(a + v + expanded(b, env) =~= v + expanded(b, env));
        } else {
            assert(a + "${"@ + name + "}"@ + expanded(b, env) =~= "${"@ + name + "}"@ + expanded(
                b,
                env,
            ));
        }
    } else {
        let rest = a.skip(1);
        assert(s[0] == a[0]);
        assert(a.contains(a[0]));
        assert forall|c: char| rest.contains(c) implies a.contains(c) by {
            let i = choose|i: int| 0 <= i < rest.len() && rest[i] == c;
            assert(a[i + 1] == c);
        }
        references_stand_for_their_values(rest, name, b, env);
        assert(s.skip(1) =~= rest + "${"@ + name + "}"@ + b);
        assert(s.take(1) + rest =~= a);
        if value_of(name, env) is Some {
            let v = value_of(name, env)->0;
            assert(s.take(1) + (rest + v + expanded(b, env)) =~= a + v + expanded(b, env));
        } else {
            assert(s.take(1) + (rest + "${"@ + name + "}"@ + expanded(b, env)) =~= a + "${"@ + name
                + "}"@ + expanded(b, env));
        }
    }
}

/// A file that is missing, unreadable or does not parse changes nothing, and the last two are one warning that
/// names the file; a file with any other fault ends the load with that fault, under its name.
pub proof fn bad_files_change_nothing(cfg: ConfigView, path: Seq<char>, read: FileRead, env: EnvView)
    ensures
        ({
            let (r, warned) = file_step(cfg, path, read, env);
            match read {
                FileRead::Missing => r == Ok::<ConfigView, ConfigErrorView>(cfg) && warned.len() == 0,
                FileRead::Unreadable(e) => r == Ok::<ConfigView, ConfigErrorView>(cfg)
                    && warned.len() == 1 && warned[0] == "Warning: config "@ + path + ": "@ + e@
                    + " (ignored)"@,
                FileRead::Document(Err(ConfigError::Parse(e))) => r
                    == Ok::<ConfigView, ConfigErrorView>(cfg) && warned.len() == 1 && warned[0]
                    == "Warning: config "@ + path + ": "@ + e@ + " (file ignored)"@,
                FileRead::Document(Err(e)) => (r matches Err(ConfigErrorView::File(p, source)) && p
                    == path && *source == e@) && warned.len() == 0,
                FileRead::Document(Ok(file)) => warned.len() == 0 && (r matches Err(e)
                    ==> (e matches ConfigErrorView::File(p, _) && p == path)),
            }
        }),
{
}

/// Two files of which the second is a good document: what the second declares stands as it declares it, and what
/// it does not declare stands as it was before it.
pub proof fn a_later_file_wins(cfg: ConfigView, path: Seq<char>, file: ConfigFile, env: EnvView, name: Seq<char>)
    ensures
        file_step(cfg, path, FileRead::Document(Ok(file)), env).0 matches Ok(m) ==> {
            &&& file.providers@.contains_key(name) ==> m.providers.contains_key(name)
                && m.providers[name].kind == file.providers@[name].kind && m.providers[name].key
                == expanded(file.providers@[name].key, env) && m.providers[name].url == expanded(
                file.providers@[name].url,
                env,
            )
            &&& !file.providers@.contains_key(name) ==> m.providers.index_opt(name)
                == cfg.providers.index_opt(name)
            &&& file.agents@.contains_key(name) ==> m.agents.contains_key(name)
                && m.agents[name].models == file.agents@[name].models && m.agents[name].tools
                == file.agents@[name].tools && m.agents[name].system == file.agents@[name].system
            &&& !file.agents@.contains_key(name) ==> m.agents.index_opt(name)
                == cfg.agents.index_opt(name)
            &&& file.mcp_servers@.contains_key(name) ==> m.mcp_servers.contains_key(name)
                && m.mcp_servers[name] == file.mcp_servers@[name]
            &&& !file.mcp_servers@.contains_key(name) ==> m.mcp_servers.index_opt(name)
                == cfg.mcp_servers.index_opt(name)
            &&& file.models@.contains_key(name) ==> m.models.contains_key(name) && (
            file.models@[name] matches EntryView::Full(v) ==> m.models[name] == v)
            &&& !file.models@.contains_key(name) ==> m.models.index_opt(name)
                == cfg.models.index_opt(name)
        },
{
    merge_replaces_whole_entries(cfg, file, env, name);
}

/// The files of a stack are taken in order, each on top of what the ones before it came to.
pub proof fn files_are_taken_in_order(
    cfg: ConfigView,
    files: Seq<(String, FileRead)>,
    i: int,
    env: EnvView,
)
    requires
        0 <= i < files.len(),
    ensures
        ({
            let (first, warned) = file_step(cfg, files[i].0@, files[i].1, env);
            let (end, all) = files_step(cfg, files, i, env);
            &&& first matches Err(e) ==> end == Err::<ConfigView, ConfigErrorView>(e) && all
                == warned
            &&& first matches Ok(next) ==> end == files_step(next, files, i + 1, env).0 && all
                == warned + files_step(next, files, i + 1, env).1
        }),
        files_step(cfg, files, files.len() as int, env).0 == Ok::<ConfigView, ConfigErrorView>(cfg),
{
}

/// A file that was named is the only source; without one the user's comes first and the project's after it, so
/// that the project's wins.
pub proof fn the_project_comes_after_the_user(
    explicit: Option<Seq<char>>,
    home: Option<Seq<char>>,
    cwd: Option<Seq<char>>,
)
    ensures
        ({
            let s = source_list(explicit, home, cwd);
            &&& explicit matches Some(p) ==> s.len() == 1 && s[0] == p
            &&& explicit is None ==> s.len() == (if home is Some { 1int } else { 0 }) + (
            if cwd is Some { 1int } else { 0 })
            &&& explicit is None && home is Some ==> s[0] == home->0
            &&& explicit is None && cwd is Some ==> s.last() == cwd->0
        }),
{
}

// ---------------------------------------------------------------- validation

/// Whether a model can be reached: the provider it runs at is declared, or is a type.
proof fn no_model_fault(cfg: ConfigView, catalog: Catalog, pairs: Seq<(Seq<char>, ModelView)>, i: int)
    requires
        0 <= i <= pairs.len(),
    ensures
        models_fault(cfg, catalog, pairs, i) is None == (forall|k: int|
            i <= k < pairs.len() ==> model_fault(cfg, catalog, (#[trigger] pairs[k]).0, pairs[k].1)
                is None),
    decreases pairs.len() - i,
{
    if i < pairs.len() {
        no_model_fault(cfg, catalog, pairs, i + 1);
        if models_fault(cfg, catalog, pairs, i) is None {
            assert forall|k: int| i <= k < pairs.len() implies model_fault(
                cfg,
                catalog,
                (#[trigger] pairs[k]).0,
                pairs[k].1,
            ) is None by {}
        } else if model_fault(cfg, catalog, pairs[i].0, pairs[i].1) is Some {
            assert(!(model_fault(cfg, catalog, pairs[i].0, pairs[i].1) is None));
        }
    }
}

/// A model at a provider that is neither declared nor a type is a fault, and so is a `defer_mode` that the type of
/// its endpoint does not speak; nothing else of a model is.
pub proof fn models_need_a_known_provider(
    cfg: ConfigView,
    catalog: Catalog,
    name: Seq<char>,
    m: ModelView,
)
    ensures
        ({
            let p = if m.provider.len() > 0 { m.provider } else { name };
            &&& !cfg.providers.contains_key(p) && kind_named(p) is None ==> model_fault(
                cfg,
                catalog,
                name,
                m,
            ) is Some
            &&& (cfg.providers.contains_key(p) || kind_named(p) is Some) && m.defer_mode.len() == 0
                ==> model_fault(cfg, catalog, name, m) is None
            &&& m.defer_mode.len() == 0 ==> model_warning(name, m).len() == 0
        }),
{
}

/// An agent's reference is a fault exactly where the entry it names, or the provider it names, is unknown.
pub proof fn references_need_what_they_name(cfg: ConfigView, name: Seq<char>, r: RefView)
    ensures
        ref_error(cfg, name, r) is None == match r {
            RefView::Entry(e) => cfg.models.contains_key(e),
            RefView::Inline(p, _) => cfg.providers.contains_key(p) || kind_named(p) is Some,
            RefView::All(p) => cfg.providers.contains_key(p) || kind_named(p) is Some,
        },
        ref_error(cfg, name, r) matches Some(e) ==> (e matches ConfigErrorView::Agent(n, _) && n
            == name),
{
}

/// A server that signs in has a url; client credentials need a sign-in, and a secret an id. Nothing else of a
/// server is a fault.
pub proof fn servers_are_checked_for_sign_in(name: Seq<char>, s: ServerView)
    ensures
        server_fault(name, s) is None == {
            &&& s.auth == AuthMode::Oauth ==> s.url.len() > 0
            &&& s.auth != AuthMode::Oauth ==> s.client_id.len() == 0 && s.client_secret.len() == 0
            &&& s.client_secret.len() > 0 ==> s.client_id.len() > 0
        },
        server_fault(name, s) matches Some(e) ==> (e matches ConfigErrorView::McpServer(n, _) && n
            == name),
{
}

proof fn no_server_fault(pairs: Seq<(Seq<char>, ServerView)>, i: int)
    requires
        0 <= i <= pairs.len(),
    ensures
        (forall|k: int|
            i <= k < pairs.len() ==> server_fault((#[trigger] pairs[k]).0, pairs[k].1) is None)
            ==> servers_fault(pairs, i) is None,
    decreases pairs.len() - i,
{
    if i < pairs.len() {
        no_server_fault(pairs, i + 1);
        if forall|k: int|
            i <= k < pairs.len() ==> server_fault((#[trigger] pairs[k]).0, pairs[k].1) is None {
            assert(server_fault(pairs[i].0, pairs[i].1) is None);
        }
    }
}

proof fn no_ref_fault(cfg: ConfigView, name: Seq<char>, refs: Seq<RefView>, i: int)
    requires
        0 <= i <= refs.len(),
        forall|k: int| 0 <= k < refs.len() ==> ref_error(cfg, name, #[trigger] refs[k]) is None,
    ensures
        refs_fault(cfg, name, refs, i) is None,
    decreases refs.len() - i,
{
    if i < refs.len() {
        no_ref_fault(cfg, name, refs, i + 1);
    }
}

proof fn no_agent_fault(cfg: ConfigView, pairs: Seq<(Seq<char>, AgentView)>, i: int)
    requires
        0 <= i <= pairs.len(),
        forall|k: int| 0 <= k < pairs.len() ==> (#[trigger] pairs[k]).1.models.len() > 0,
        forall|k: int, j: int| #![trigger pairs[k].1.models[j]]
            0 <= k < pairs.len() && 0 <= j < pairs[k].1.models.len() ==> ref_error(
                cfg,
                pairs[k].0,
                pairs[k].1.models[j],
            ) is None,
    ensures
        agents_fault(cfg, pairs, i) is None,
    decreases pairs.len() - i,
{
    if i < pairs.len() {
        no_agent_fault(cfg, pairs, i + 1);
        let refs = pairs[i].1.models;
        assert forall|k: int| 0 <= k < refs.len() implies ref_error(
            cfg,
            pairs[i].0,
            #[trigger] refs[k],
        ) is None by {
            assert(pairs[i].1.models[k] == refs[k]);
        }
        no_ref_fault(cfg, pairs[i].0, refs, 0);
    }
}

/// A config in which every model has a provider and defers nothing, every server passes its own check, and every
/// agent names models that there are, is accepted.
pub proof fn sound_configs_are_accepted(cfg: ConfigView, catalog: Catalog)
    requires
        forall|k: int| 0 <= k < pairs_of(cfg.models).len() ==> ({
            let (name, m) = #[trigger] pairs_of(cfg.models)[k];
            let p = if m.provider.len() > 0 { m.provider } else { name };
            m.defer_mode.len() == 0 && (cfg.providers.contains_key(p) || kind_named(p) is Some)
        }),
        forall|k: int| 0 <= k < pairs_of(cfg.mcp_servers).len() ==> server_fault(
            (#[trigger] pairs_of(cfg.mcp_servers)[k]).0,
            pairs_of(cfg.mcp_servers)[k].1,
        ) is None,
        forall|k: int|
            0 <= k < pairs_of(cfg.agents).len() ==> (#[trigger] pairs_of(
                cfg.agents,
            )[k]).1.models.len() > 0,
        forall|k: int, j: int| #![trigger pairs_of(cfg.agents)[k].1.models[j]]
            0 <= k < pairs_of(cfg.agents).len() && 0 <= j < pairs_of(cfg.agents)[k].1.models.len()
                ==> match pairs_of(cfg.agents)[k].1.models[j] {
                RefView::Entry(e) => cfg.models.contains_key(e),
                RefView::Inline(p, _) => cfg.providers.contains_key(p) || kind_named(p) is Some,
                RefView::All(p) => cfg.providers.contains_key(p) || kind_named(p) is Some,
            },
    ensures
        config_fault(cfg, catalog) is None,
{
    let models = pairs_of(cfg.models);
    assert forall|k: int| 0 <= k < models.len() implies model_fault(
        cfg,
        catalog,
        (#[trigger] models[k]).0,
        models[k].1,
    ) is None by {
        models_need_a_known_provider(cfg, catalog, models[k].0, models[k].1);
    }
    no_model_fault(cfg, catalog, models, 0);
    no_server_fault(pairs_of(cfg.mcp_servers), 0);
    no_agent_fault(cfg, pairs_of(cfg.agents), 0);
}

} // verus!
