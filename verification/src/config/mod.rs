//! The configuration: `~/.iota.yaml` merged under `./.iota.yaml` (or one file given by name), expanded at
//! merge time and validated once at the end of a load.
//!
//! THREE layers, each with one job: `providers` is the endpoint, `models` a provider reference plus the wire id
//! and the model's own properties, `agents` how a model is driven.

use vstd::prelude::*;
use vstd::string::*;

pub mod agent;
pub mod edit;
pub mod error;
pub mod file_laws;
pub mod flat;
pub mod laws;
pub mod layers;
pub mod meaning;
pub mod migrate;
pub mod model;
pub mod params;
pub mod provider;
pub mod rewrite;
pub mod server;
pub mod strict;

use crate::app::env::{expand, expanded, Env, EnvView};
use crate::app::{join_path, path_join, CONFIG_BASE};
use crate::config::agent::{blank_agent, opt_strs, AgentConfig, AgentView};
use crate::config::error::{ConfigError, ConfigErrorView};
use crate::config::model::{
    anchored, blank_model, entry_model, refs, EntryView, ModelConfig, ModelEntry, ModelRef,
    ModelView, RefView,
};
use crate::config::provider::{blank_provider, or_else, Endpoint, ProviderConfig, ProviderView};
use crate::config::server::{AuthMode, McpServerConfig, ServerView};
use crate::config::strict::{audit, document_fault};
use crate::double::Double;
use crate::map::{pairs_of, Duplicate, StrMap};
use crate::provider::{defer_named, kind_named, opt_view, Catalog, DeferMode, ProviderKind};
use crate::text::{debug_text, own, push_text, quoted, same, strs};
use crate::yaml::{read, yaml_document, Yaml};

verus! {

/// The `agents:` entry a run with no positional argument falls back to.
pub const DEFAULT_AGENT: &'static str = "default";

/// ONE config document, decoded. [`Config`] is what a stack of these merges into.
pub struct ConfigFile {
    /// `providers:` — endpoints.
    pub providers: StrMap<ProviderConfig>,
    /// `models:` — configured models, as written.
    pub models: StrMap<ModelEntry>,
    /// `agents:` — configured usages.
    pub agents: StrMap<AgentConfig>,
    /// `mcp_servers:` — the servers an agent may select.
    pub mcp_servers: StrMap<McpServerConfig>,
}

/// The merged, expanded and validated config.
pub struct Config {
    /// `providers:` — endpoints by name.
    pub providers: StrMap<ProviderConfig>,
    /// `models:` — configured models by name.
    pub models: StrMap<ModelConfig>,
    /// `agents:` — configured usages by name.
    pub agents: StrMap<AgentConfig>,
    /// `mcp_servers:` — the MCP servers an agent may select, by name.
    pub mcp_servers: StrMap<McpServerConfig>,
}

/// What a [`Config`] says.
pub struct ConfigView {
    pub providers: Map<Seq<char>, ProviderView>,
    pub models: Map<Seq<char>, ModelView>,
    pub agents: Map<Seq<char>, AgentView>,
    pub mcp_servers: Map<Seq<char>, ServerView>,
}

impl View for Config {
    type V = ConfigView;

    open spec fn view(&self) -> ConfigView {
        ConfigView {
            providers: self.providers@,
            models: self.models@,
            agents: self.agents@,
            mcp_servers: self.mcp_servers@,
        }
    }
}

impl Default for Config {
    /// The config that declares nothing.
    fn default() -> (r: Config)
        ensures
            r@ == (ConfigView {
                providers: Map::empty(),
                models: Map::empty(),
                agents: Map::empty(),
                mcp_servers: Map::empty(),
            }),
    {
        Config {
            providers: StrMap::new(),
            models: StrMap::new(),
            agents: StrMap::new(),
            mcp_servers: StrMap::new(),
        }
    }
}

// ---------------------------------------------------------------- merging

/// A provider entry with its key and url expanded.
pub open spec fn expanded_provider(p: ProviderView, env: EnvView) -> ProviderView {
    ProviderView { kind: p.kind, key: expanded(p.key, env), url: expanded(p.url, env) }
}

/// `base` with each provider of `pairs`, expanded, in place of its namesake.
pub open spec fn with_providers(
    base: Map<Seq<char>, ProviderView>,
    pairs: Seq<(Seq<char>, ProviderView)>,
    env: EnvView,
) -> Map<Seq<char>, ProviderView>
    decreases pairs.len(),
{
    if pairs.len() == 0 {
        base
    } else {
        with_providers(base, pairs.drop_last(), env).insert(
            pairs.last().0,
            expanded_provider(pairs.last().1, env),
        )
    }
}

/// `base` with the model of each entry of `pairs` in place of its namesake.
pub open spec fn with_models(
    base: Map<Seq<char>, ModelView>,
    pairs: Seq<(Seq<char>, EntryView)>,
) -> Map<Seq<char>, ModelView>
    decreases pairs.len(),
{
    if pairs.len() == 0 {
        base
    } else {
        with_models(base, pairs.drop_last()).insert(
            pairs.last().0,
            entry_model(pairs.last().1, pairs.last().0)->Ok_0,
        )
    }
}

/// `base` with each agent of `pairs`, its system file expanded, in place of its namesake.
pub open spec fn with_agents(
    base: Map<Seq<char>, AgentView>,
    pairs: Seq<(Seq<char>, AgentView)>,
    env: EnvView,
) -> Map<Seq<char>, AgentView>
    decreases pairs.len(),
{
    if pairs.len() == 0 {
        base
    } else {
        let a = pairs.last().1;
        with_agents(base, pairs.drop_last(), env).insert(
            pairs.last().0,
            AgentView { system_file: expanded(a.system_file, env), ..a },
        )
    }
}

/// `base` with each server of `pairs` in place of its namesake.
pub open spec fn with_servers(
    base: Map<Seq<char>, ServerView>,
    pairs: Seq<(Seq<char>, ServerView)>,
) -> Map<Seq<char>, ServerView>
    decreases pairs.len(),
{
    if pairs.len() == 0 {
        base
    } else {
        with_servers(base, pairs.drop_last()).insert(pairs.last().0, pairs.last().1)
    }
}

/// The first entry from `i` on that configures no model; the length when there is none.
pub open spec fn first_bad_model(pairs: Seq<(Seq<char>, EntryView)>, i: int) -> int
    decreases pairs.len() - i,
{
    if i < 0 || i >= pairs.len() || entry_model(pairs[i].1, pairs[i].0) is Err {
        i
    } else {
        first_bad_model(pairs, i + 1)
    }
}

/// `cfg` with the document `file` merged over it, whole entry at a time, by name.
pub open spec fn merged(cfg: ConfigView, file: ConfigFile, env: EnvView) -> ConfigView {
    ConfigView {
        providers: with_providers(cfg.providers, pairs_of(file.providers@), env),
        models: with_models(cfg.models, pairs_of(file.models@)),
        agents: with_agents(cfg.agents, pairs_of(file.agents@), env),
        mcp_servers: with_servers(cfg.mcp_servers, pairs_of(file.mcp_servers@)),
    }
}

/// `cfg` with what a merge of `file` has placed when it fails at a model.
pub open spec fn merged_in_part(cfg: ConfigView, file: ConfigFile, env: EnvView) -> ConfigView {
    let pairs = pairs_of(file.models@);
    ConfigView {
        providers: merged(cfg, file, env).providers,
        models: with_models(cfg.models, pairs.take(first_bad_model(pairs, 0))),
        ..cfg
    }
}

/// What is wrong with the first entry of a document that configures no model.
pub open spec fn merge_fault(file: ConfigFile) -> Option<ConfigErrorView> {
    let pairs = pairs_of(file.models@);
    let bad = first_bad_model(pairs, 0);
    if bad < pairs.len() {
        Some(entry_model(pairs[bad].1, pairs[bad].0)->Err_0)
    } else {
        None
    }
}

/// What reading one config file gave.
pub enum FileRead {
    /// There is no such file.
    Missing,
    /// The file could not be read, with the text of the failure.
    Unreadable(String),
    /// The document, or why it was refused.
    Document(Result<ConfigFile, ConfigError>),
}

/// What merging one file does: the config it leaves, or why the load fails, and what it warns of. A missing
/// file is silent, an unreadable one and one that is no YAML are dropped with a warning, and everything else
/// that is wrong fails the load with the name of the file.
pub open spec fn file_step(cfg: ConfigView, path: Seq<char>, read: FileRead, env: EnvView) -> (
    Result<ConfigView, ConfigErrorView>,
    Seq<Seq<char>>,
) {
    match read {
        FileRead::Missing => (Ok(cfg), Seq::empty()),
        FileRead::Unreadable(e) => (
            Ok(cfg),
            seq!["Warning: config "@ + path + ": "@ + e@ + " (ignored)"@],
        ),
        FileRead::Document(Err(ConfigError::Parse(e))) => (
            Ok(cfg),
            seq!["Warning: config "@ + path + ": "@ + e@ + " (file ignored)"@],
        ),
        FileRead::Document(Err(e)) => (
            Err(ConfigErrorView::File(path, Box::new(e@))),
            Seq::empty(),
        ),
        FileRead::Document(Ok(file)) => match merge_fault(file) {
            None => (Ok(merged(cfg, file, env)), Seq::empty()),
            Some(fault) => (Err(ConfigErrorView::File(path, Box::new(fault))), Seq::empty()),
        },
    }
}

/// What merging the files from `i` on does, up to the first failure.
pub open spec fn files_step(
    cfg: ConfigView,
    files: Seq<(String, FileRead)>,
    i: int,
    env: EnvView,
) -> (Result<ConfigView, ConfigErrorView>, Seq<Seq<char>>)
    decreases files.len() - i,
{
    if i < 0 || i >= files.len() {
        (Ok(cfg), Seq::empty())
    } else {
        let (r, warned) = file_step(cfg, files[i].0@, files[i].1, env);
        match r {
            Ok(next) => {
                let (end, more) = files_step(next, files, i + 1, env);
                (end, warned + more)
            },
            Err(e) => (Err(e), warned),
        }
    }
}

/// What merging a stack of files into a blank config does.
pub open spec fn loading_files(files: Seq<(String, FileRead)>, env: EnvView) -> (
    Result<ConfigView, ConfigErrorView>,
    Seq<Seq<char>>,
) {
    files_step(
        ConfigView {
            providers: Map::empty(),
            models: Map::empty(),
            agents: Map::empty(),
            mcp_servers: Map::empty(),
        },
        files,
        0,
        env,
    )
}

/// What loading a stack of files gives: the files merged in order, then the whole validated once.
pub open spec fn loading(files: Seq<(String, FileRead)>, env: EnvView, catalog: Catalog) -> (
    Result<ConfigView, ConfigErrorView>,
    Seq<Seq<char>>,
) {
    let (r, warned) = loading_files(files, env);
    match r {
        Err(e) => (Err(e), warned),
        Ok(cfg) => {
            let all = warned + models_warnings(cfg, catalog, pairs_of(cfg.models), 0);
            match config_fault(cfg, catalog) {
                None => (Ok(cfg), all),
                Some(e) => (Err(e), all),
            }
        },
    }
}

// ---------------------------------------------------------------- references across the layers

/// Whether `name` is a configured provider or a built-in type.
pub open spec fn provider_known(cfg: ConfigView, name: Seq<char>) -> bool {
    cfg.providers.contains_key(name) || kind_named(name) is Some
}

/// The entry a provider name reaches; one that says nothing for a name no entry declares.
pub open spec fn endpoint_entry(cfg: ConfigView, name: Seq<char>) -> ProviderView {
    if cfg.providers.contains_key(name) {
        cfg.providers[name]
    } else {
        blank_provider()
    }
}

/// The TYPE behind a provider name: `type:`, else the name.
pub open spec fn endpoint_kind(cfg: ConfigView, name: Seq<char>) -> Seq<char> {
    or_else(endpoint_entry(cfg, name).kind, name)
}

/// What is wrong with a model: its provider is unknown, or cannot speak its defer mode.
pub open spec fn model_fault(
    cfg: ConfigView,
    catalog: Catalog,
    name: Seq<char>,
    m: ModelView,
) -> Option<ConfigErrorView> {
    let p = or_else(m.provider, name);
    if !provider_known(cfg, p) {
        Some(ConfigErrorView::Model(name, "unknown provider "@ + debug_text(p)))
    } else {
        match (defer_named(m.defer_mode), kind_named(endpoint_kind(cfg, p))) {
            (Some(mode), Some(kind)) => if m.defer_mode.len() > 0 && !catalog.speaks(mode, kind) {
                Some(ConfigErrorView::DeferMode(name, m.defer_mode, kind))
            } else {
                None
            },
            _ => None,
        }
    }
}

/// The warning about a defer mode that is none.
pub open spec fn model_warning(name: Seq<char>, m: ModelView) -> Seq<Seq<char>> {
    if m.defer_mode.len() > 0 && defer_named(m.defer_mode) is None {
        seq![
            "Warning: config models."@ + name + ": unknown defer_mode "@ + debug_text(m.defer_mode)
                + " (using normal)"@,
        ]
    } else {
        Seq::empty()
    }
}

/// The first fault of the models from `i` on.
pub open spec fn models_fault(
    cfg: ConfigView,
    catalog: Catalog,
    pairs: Seq<(Seq<char>, ModelView)>,
    i: int,
) -> Option<ConfigErrorView>
    decreases pairs.len() - i,
{
    if i < 0 || i >= pairs.len() {
        None
    } else if model_fault(cfg, catalog, pairs[i].0, pairs[i].1) is Some {
        model_fault(cfg, catalog, pairs[i].0, pairs[i].1)
    } else {
        models_fault(cfg, catalog, pairs, i + 1)
    }
}

/// The warnings about the models from `i` on, up to the first fault.
pub open spec fn models_warnings(
    cfg: ConfigView,
    catalog: Catalog,
    pairs: Seq<(Seq<char>, ModelView)>,
    i: int,
) -> Seq<Seq<char>>
    decreases pairs.len() - i,
{
    if i < 0 || i >= pairs.len() || model_fault(cfg, catalog, pairs[i].0, pairs[i].1) is Some {
        Seq::empty()
    } else {
        model_warning(pairs[i].0, pairs[i].1) + models_warnings(cfg, catalog, pairs, i + 1)
    }
}

/// What is wrong with a server: a login on what has nothing to log in to, or login fields that do not belong.
pub open spec fn server_fault(name: Seq<char>, s: ServerView) -> Option<ConfigErrorView> {
    if s.auth == AuthMode::Oauth && s.url.len() == 0 {
        Some(
            ConfigErrorView::McpServer(
                name,
                "auth: oauth needs a url (a stdio server has nothing to log in to)"@,
            ),
        )
    } else if s.auth != AuthMode::Oauth && (s.client_id.len() > 0 || s.client_secret.len() > 0) {
        Some(
            ConfigErrorView::McpServer(
                name,
                "client_id/client_secret apply to `auth: oauth` servers only"@,
            ),
        )
    } else if s.client_secret.len() > 0 && s.client_id.len() == 0 {
        Some(ConfigErrorView::McpServer(name, "client_secret needs a client_id"@))
    } else {
        None
    }
}

/// The first fault of the servers from `i` on.
pub open spec fn servers_fault(pairs: Seq<(Seq<char>, ServerView)>, i: int) -> Option<
    ConfigErrorView,
>
    decreases pairs.len() - i,
{
    if i < 0 || i >= pairs.len() {
        None
    } else if server_fault(pairs[i].0, pairs[i].1) is Some {
        server_fault(pairs[i].0, pairs[i].1)
    } else {
        servers_fault(pairs, i + 1)
    }
}

/// What is wrong with one reference of the agent `name`: it points nowhere.
pub open spec fn ref_error(cfg: ConfigView, name: Seq<char>, r: RefView) -> Option<
    ConfigErrorView,
> {
    match r {
        RefView::Entry(entry) => if cfg.models.contains_key(entry) {
            None
        } else {
            Some(ConfigErrorView::Agent(name, "models: unknown model "@ + debug_text(entry)))
        },
        RefView::Inline(p, _) => if provider_known(cfg, p) {
            None
        } else {
            Some(ConfigErrorView::Agent(name, "models: unknown provider "@ + debug_text(p)))
        },
        RefView::All(p) => if provider_known(cfg, p) {
            None
        } else {
            Some(ConfigErrorView::Agent(name, "models: unknown provider "@ + debug_text(p)))
        },
    }
}

/// The first reference of the agent `name` from `i` on that points nowhere.
pub open spec fn refs_fault(cfg: ConfigView, name: Seq<char>, refs: Seq<RefView>, i: int) -> Option<
    ConfigErrorView,
>
    decreases refs.len() - i,
{
    if i < 0 || i >= refs.len() {
        None
    } else if ref_error(cfg, name, refs[i]) is Some {
        ref_error(cfg, name, refs[i])
    } else {
        refs_fault(cfg, name, refs, i + 1)
    }
}

/// What is wrong with an agent: it has no model, or one that points nowhere.
pub open spec fn agent_fault(cfg: ConfigView, name: Seq<char>, a: AgentView) -> Option<
    ConfigErrorView,
> {
    if a.models.len() == 0 {
        Some(ConfigErrorView::Agent(name, "models: at least one model is required"@))
    } else {
        refs_fault(cfg, name, a.models, 0)
    }
}

/// The first fault of the agents from `i` on.
pub open spec fn agents_fault(
    cfg: ConfigView,
    pairs: Seq<(Seq<char>, AgentView)>,
    i: int,
) -> Option<ConfigErrorView>
    decreases pairs.len() - i,
{
    if i < 0 || i >= pairs.len() {
        None
    } else if agent_fault(cfg, pairs[i].0, pairs[i].1) is Some {
        agent_fault(cfg, pairs[i].0, pairs[i].1)
    } else {
        agents_fault(cfg, pairs, i + 1)
    }
}

/// The first fault of a config: of its models, then its servers, then its agents, each in name order.
pub open spec fn config_fault(cfg: ConfigView, catalog: Catalog) -> Option<ConfigErrorView> {
    let models = models_fault(cfg, catalog, pairs_of(cfg.models), 0);
    let servers = servers_fault(pairs_of(cfg.mcp_servers), 0);
    if models is Some {
        models
    } else if servers is Some {
        servers
    } else {
        agents_fault(cfg, pairs_of(cfg.agents), 0)
    }
}

// ---------------------------------------------------------------- resolution

/// What an agent name resolved to: one entry from each layer, defaults where the name reached no further.
pub struct Resolved {
    /// The name as typed.
    pub name: String,
    /// The `providers:` entry (or built-in type) the run talks to.
    pub provider_name: String,
    /// Its resolved TYPE string.
    pub provider_type: String,
    /// The endpoint entry.
    pub provider: ProviderConfig,
    /// The default model; `id` is `""` when the candidate set starts with a wildcard.
    pub model: ModelConfig,
    /// The agent driving it.
    pub agent: AgentConfig,
    /// The `agents:` entry name, or `""` when the name reached no agent.
    pub agent_name: String,
}

/// What a [`Resolved`] says.
pub struct ResolvedView {
    pub name: Seq<char>,
    pub provider_name: Seq<char>,
    pub provider_type: Seq<char>,
    pub provider: ProviderView,
    pub model: ModelView,
    pub agent: AgentView,
    pub agent_name: Seq<char>,
}

impl View for Resolved {
    type V = ResolvedView;

    open spec fn view(&self) -> ResolvedView {
        ResolvedView {
            name: self.name@,
            provider_name: self.provider_name@,
            provider_type: self.provider_type@,
            provider: self.provider@,
            model: self.model@,
            agent: self.agent@,
            agent_name: self.agent_name@,
        }
    }
}

impl Default for Resolved {
    /// Nothing resolved.
    fn default() -> (r: Resolved)
        ensures
            r@ == (ResolvedView {
                name: Seq::empty(),
                provider_name: Seq::empty(),
                provider_type: Seq::empty(),
                provider: blank_provider(),
                model: blank_model(),
                agent: blank_agent(),
                agent_name: Seq::empty(),
            }),
    {
        Resolved {
            name: String::new(),
            provider_name: String::new(),
            provider_type: String::new(),
            provider: ProviderConfig::default(),
            model: ModelConfig::default(),
            agent: AgentConfig::default(),
            agent_name: String::new(),
        }
    }
}

/// The model a reference names: a `models:` entry, an inline `provider:id`, or the provider alone for a
/// wildcard, which leaves the id empty.
pub open spec fn ref_model(cfg: ConfigView, r: RefView) -> Option<ModelView> {
    match r {
        RefView::Entry(name) => if cfg.models.contains_key(name) {
            Some(anchored(cfg.models[name], name))
        } else {
            None
        },
        RefView::Inline(provider, id) => Some(ModelView { provider, id, ..blank_model() }),
        RefView::All(provider) => Some(ModelView { provider, ..blank_model() }),
    }
}

/// A model and an agent with the endpoint the model landed on.
pub open spec fn finished(cfg: ConfigView, name: Seq<char>, model: ModelView, agent: AgentView) ->
    ResolvedView {
    let p = or_else(model.provider, name);
    ResolvedView {
        name,
        provider_name: p,
        provider_type: endpoint_kind(cfg, p),
        provider: endpoint_entry(cfg, p),
        model,
        agent,
        agent_name: Seq::empty(),
    }
}

/// What an agent name resolves to: the first model of its candidate set, and the endpoint that model rides on.
pub open spec fn resolution(cfg: ConfigView, name: Seq<char>) -> Option<ResolvedView> {
    if cfg.agents.contains_key(name) {
        let agent = cfg.agents[name];
        let model = if agent.models.len() > 0 && ref_model(cfg, agent.models[0]) is Some {
            ref_model(cfg, agent.models[0])->0
        } else {
            blank_model()
        };
        Some(ResolvedView { agent_name: name, ..finished(cfg, name, model, agent) })
    } else {
        None
    }
}

/// Whether a reference covers the model `id` of the provider `p`.
pub open spec fn ref_covers(cfg: ConfigView, r: RefView, p: Seq<char>, id: Seq<char>) -> bool {
    match r {
        RefView::Entry(name) => cfg.models.contains_key(name) && or_else(
            cfg.models[name].provider,
            name,
        ) == p && cfg.models[name].id == id,
        RefView::Inline(provider, want) => provider == p && want == id,
        RefView::All(provider) => provider == p,
    }
}

/// Whether some reference covers the model `id` of the provider `p`.
pub open spec fn covered(cfg: ConfigView, refs: Seq<RefView>, p: Seq<char>, id: Seq<char>) -> bool {
    exists|i: int| 0 <= i < refs.len() && #[trigger] ref_covers(cfg, refs[i], p, id)
}

/// A resolution pointed at another provider, with the model entry it already carries.
pub open spec fn moved(cfg: ConfigView, r: ResolvedView, name: Seq<char>) -> ResolvedView {
    ResolvedView {
        provider_name: name,
        provider_type: endpoint_kind(cfg, name),
        provider: endpoint_entry(cfg, name),
        model: ModelView { provider: name, ..r.model },
        ..r
    }
}

/// The first name from `i` on that no server has.
pub open spec fn first_unknown(
    servers: Map<Seq<char>, ServerView>,
    names: Seq<Seq<char>>,
    i: int,
) -> Option<Seq<char>>
    decreases names.len() - i,
{
    if i < 0 || i >= names.len() {
        None
    } else if !servers.contains_key(names[i]) {
        Some(names[i])
    } else {
        first_unknown(servers, names, i + 1)
    }
}

/// Whether a result is the servers that a list of names selects: all without a list, else exactly the named
/// ones; the first name that no server has is the error.
pub open spec fn selects(
    r: Result<StrMap<McpServerConfig>, ConfigError>,
    servers: Map<Seq<char>, ServerView>,
    wanted: Option<Seq<Seq<char>>>,
) -> bool {
    match wanted {
        None => r matches Ok(m) && m@ == servers,
        Some(names) => match first_unknown(servers, names, 0) {
            None => r matches Ok(m) && m@ == servers.restrict(names.to_set()),
            Some(name) => r matches Err(e) && e@ == ConfigErrorView::UnknownMcpServer(name),
        },
    }
}

/// The servers that a list of names selects.
pub fn select_servers(servers: &StrMap<McpServerConfig>, wanted: &Option<Vec<String>>) -> (r: Result<
    StrMap<McpServerConfig>,
    ConfigError,
>)
    ensures
        selects(r, servers@, opt_strs(*wanted)),
{
    match wanted {
        None => Ok(servers.duplicate()),
        Some(names) => {
            let ghost all = strs(names@);
            let mut out: StrMap<McpServerConfig> = StrMap::new();
            assert(out@ =~= servers@.restrict(all.take(0).to_set()));
            for i in 0..names.len()
                invariant
                    all == strs(names@),
                    *wanted == Some(*names),
                    first_unknown(servers@, all, 0) == first_unknown(
                        servers@,
                        all,
                        i as int,
                    ),
                    out@ == servers@.restrict(all.take(i as int).to_set()),
                    forall|k: int|
                        0 <= k < i ==> servers@.contains_key(#[trigger] all[k]),
            {
                match servers.get(names[i].as_str()) {
                    None => {
                        return Err(ConfigError::UnknownMcpServer(names[i].clone()));
                    },
                    Some(server) => {
                        let ghost was = out@;
                        out.insert(names[i].clone(), server.duplicate());
                        proof {
                            let name = all[i as int];
                            let t = all.take(i as int);
                            let u = all.take(i + 1);
                            assert(u =~= t.push(name));
                            assert forall|x: Seq<char>| u.to_set().contains(x) <==> (
                            t.to_set().contains(x) || x == name) by {
                                if t.to_set().contains(x) {
                                    let k = choose|k: int| 0 <= k < t.len() && t[k] == x;
                                    assert(u[k] == x);
                                }
                                if x == name {
                                    assert(u[i as int] == x);
                                }
                                if u.to_set().contains(x) && x != name {
                                    let k = choose|k: int| 0 <= k < u.len() && u[k] == x;
                                    assert(t[k] == x);
                                }
                            }
                            assert(out@ =~= servers@.restrict(u.to_set()));
                        }
                    },
                }
            }
            assert(all.take(all.len() as int) =~= all);
            Ok(out)
        },
    }
}

impl Resolved {
    /// The effort: the agent's override, else the model's default.
    pub fn effort(&self) -> (r: &str)
        ensures
            r@ == or_else(self@.agent.effort, self@.model.effort),
    {
        if self.agent.effort.as_str().is_empty() {
            self.model.effort.as_str()
        } else {
            self.agent.effort.as_str()
        }
    }

    /// The temperature: the agent's override, else the model's default.
    pub fn temperature(&self) -> (r: Option<Double>)
        ensures
            r == if self@.agent.temperature is Some {
                self@.agent.temperature
            } else {
                self@.model.temperature
            },
    {
        match self.agent.temperature {
            Some(t) => Some(t),
            None => self.model.temperature,
        }
    }

    /// The nucleus: the agent's override, else the model's default.
    pub fn top_p(&self) -> (r: Option<Double>)
        ensures
            r == if self@.agent.top_p is Some {
                self@.agent.top_p
            } else {
                self@.model.top_p
            },
    {
        match self.agent.top_p {
            Some(t) => Some(t),
            None => self.model.top_p,
        }
    }

    /// Points the run at another provider, keeping the model entry it already carries.
    pub fn move_to_provider(&mut self, cfg: &Config, name: &str)
        ensures
            final(self)@ == moved(cfg@, old(self)@, name@),
    {
        let endpoint: Endpoint = cfg.provider(name);
        self.provider_name = own(name);
        self.provider_type = endpoint.kind;
        self.provider = endpoint.config;
        self.model.provider = own(name);
    }

    /// The endpoint this run talks to.
    pub fn endpoint(&self) -> (r: Endpoint)
        ensures
            r.kind@ == self@.provider_type,
            r.config@ == self@.provider,
    {
        Endpoint { kind: self.provider_type.clone(), config: self.provider.duplicate() }
    }

    /// Whether the model `id` of `provider_name` is inside the agent's candidate set. A `provider:*` entry
    /// covers every id that provider serves, and a bare entry name covers the model it points at.
    pub fn covers(&self, cfg: &Config, provider_name: &str, id: &str) -> (r: bool)
        ensures
            r == covered(cfg@, self@.agent.models, provider_name@, id@),
    {
        for i in 0..self.agent.models.len()
            invariant
                forall|k: int|
                    0 <= k < i ==> !#[trigger] ref_covers(
                        cfg@,
                        self@.agent.models[k],
                        provider_name@,
                        id@,
                    ),
        {
            if cfg.ref_covers(&self.agent.models[i], provider_name, id) {
                assert(ref_covers(cfg@, self@.agent.models[i as int], provider_name@, id@));
                return true;
            }
        }
        false
    }

    /// A copy of the resolution.
    pub fn copy(&self) -> (r: Resolved)
        ensures
            r@ == self@,
    {
        Resolved {
            name: self.name.clone(),
            provider_name: self.provider_name.clone(),
            provider_type: self.provider_type.clone(),
            provider: self.provider.duplicate(),
            model: self.model.duplicate(),
            agent: self.agent.duplicate(),
            agent_name: self.agent_name.clone(),
        }
    }
}

/// The paths a directory's config file may have, in lookup order.
pub fn config_candidates(dir: &str) -> (r: Vec<String>)
    ensures
        strs(r@) == seq![
            path_join(dir@, CONFIG_BASE@ + ".yaml"@),
            path_join(dir@, CONFIG_BASE@ + ".yml"@),
        ],
{
    let mut r: Vec<String> = Vec::new();
    let mut yaml: String = own(CONFIG_BASE);
    yaml.append(".yaml");
    let mut yml: String = own(CONFIG_BASE);
    yml.append(".yml");
    r.push(join_path(dir, yaml.as_str()));
    r.push(join_path(dir, yml.as_str()));
    assert(strs(r@) =~= seq![
        path_join(dir@, CONFIG_BASE@ + ".yaml"@),
        path_join(dir@, CONFIG_BASE@ + ".yml"@),
    ]);
    r
}

/// Reads a document as far as its keys: YAML syntax first, then the key audit.
pub fn check_document(data: &[u8]) -> (r: Result<Yaml, ConfigError>)
    ensures
        match yaml_document(data@) {
            Ok(node) => match document_fault(node) {
                None => r matches Ok(y) && y@ == node,
                Some(fault) => r matches Err(e) && e@ == fault,
            },
            Err(text) => r matches Err(e) && e@ == ConfigErrorView::Parse(text),
        },
{
    match read(data) {
        Ok(doc) => match audit(&doc) {
            Ok(_) => Ok(doc),
            Err(e) => Err(e),
        },
        Err(e) => Err(ConfigError::Parse(e)),
    }
}

impl Config {
    /// Merges one decoded document over what is already here. A `models:` entry that configures no model ends
    /// the merge with its error: the providers and the models before it are merged by then.
    pub fn merge_document(&mut self, file: &ConfigFile, env: &Env) -> (r: Result<(), ConfigError>)
        ensures
            match merge_fault(*file) {
                None => r is Ok && final(self)@ == merged(old(self)@, *file, env@),
                Some(fault) => r matches Err(e) && e@ == fault && final(self)@ == merged_in_part(
                    old(self)@,
                    *file,
                    env@,
                ),
            },
    {
        let n: usize = file.providers.len();
        let ghost providers = file.providers.pairs();
        for i in 0..n
            invariant
                n == providers.len(),
                providers == file.providers.pairs(),
                self@ == (ConfigView {
                    providers: with_providers(
                        old(self)@.providers,
                        providers.take(i as int),
                        env@,
                    ),
                    ..old(self)@
                }),
        {
            assert(providers.take(i + 1).drop_last() =~= providers.take(i as int));
            let entry: &ProviderConfig = file.providers.value_at(i);
            let expanded_entry = ProviderConfig {
                kind: entry.kind.clone(),
                key: expand(entry.key.as_str(), env),
                url: expand(entry.url.as_str(), env),
            };
            self.providers.insert(file.providers.key_at(i).clone(), expanded_entry);
        }
        assert(providers.take(n as int) =~= providers);
        let n: usize = file.models.len();
        let ghost models = file.models.pairs();
        let ghost placed = self@;
        for i in 0..n
            invariant
                n == models.len(),
                models == file.models.pairs(),
                models == pairs_of(file.models@),
                first_bad_model(models, 0) == first_bad_model(models, i as int),
                self@ == (ConfigView {
                    models: with_models(placed.models, models.take(i as int)),
                    ..placed
                }),
                placed == (ConfigView {
                    providers: merged(old(self)@, *file, env@).providers,
                    ..old(self)@
                }),
        {
            assert(models.take(i + 1).drop_last() =~= models.take(i as int));
            let name: &String = file.models.key_at(i);
            match file.models.value_at(i).duplicate().into_config(name.as_str()) {
                Ok(m) => self.models.insert(name.clone(), m),
                Err(e) => return Err(e),
            }
        }
        assert(models.take(n as int) =~= models);
        let n: usize = file.agents.len();
        let ghost agents = file.agents.pairs();
        let ghost placed = self@;
        for i in 0..n
            invariant
                n == agents.len(),
                agents == file.agents.pairs(),
                self@ == (ConfigView {
                    agents: with_agents(placed.agents, agents.take(i as int), env@),
                    ..placed
                }),
        {
            assert(agents.take(i + 1).drop_last() =~= agents.take(i as int));
            let mut a: AgentConfig = file.agents.value_at(i).duplicate();
            a.system_file = expand(a.system_file.as_str(), env);
            self.agents.insert(file.agents.key_at(i).clone(), a);
        }
        assert(agents.take(n as int) =~= agents);
        let n: usize = file.mcp_servers.len();
        let ghost servers = file.mcp_servers.pairs();
        let ghost placed = self@;
        for i in 0..n
            invariant
                n == servers.len(),
                servers == file.mcp_servers.pairs(),
                self@ == (ConfigView {
                    mcp_servers: with_servers(placed.mcp_servers, servers.take(i as int)),
                    ..placed
                }),
        {
            assert(servers.take(i + 1).drop_last() =~= servers.take(i as int));
            self.mcp_servers.insert(
                file.mcp_servers.key_at(i).clone(),
                file.mcp_servers.value_at(i).duplicate(),
            );
        }
        assert(servers.take(n as int) =~= servers);
        Ok(())
    }
}

/// `Warning: config <path>: <what> (<outcome>)`.
fn file_warning(path: &str, what: &str, outcome: &str) -> (r: String)
    ensures
        r@ == "Warning: config "@ + path@ + ": "@ + what@ + outcome@,
{
    let mut m: String = own("Warning: config ");
    m.append(path);
    m.append(": ");
    m.append(what);
    m.append(outcome);
    m
}

impl Config {
    /// One file, merged over what is already here.
    pub fn merge_file(
        &mut self,
        path: &str,
        read: FileRead,
        env: &Env,
        warn: &mut Vec<String>,
    ) -> (r: Result<(), ConfigError>)
        ensures
            ({
                let (want, warned) = file_step(old(self)@, path@, read, env@);
                &&& strs(final(warn)@) == strs(old(warn)@) + warned
                &&& match want {
                    Ok(cfg) => r is Ok && final(self)@ == cfg,
                    Err(fault) => r matches Err(e) && e@ == fault && final(self)@ == match read {
                        FileRead::Document(Ok(file)) => merged_in_part(old(self)@, file, env@),
                        _ => old(self)@,
                    },
                }
            }),
    {
        assert(strs(old(warn)@) + Seq::<Seq<char>>::empty() =~= strs(old(warn)@));
        match read {
            FileRead::Missing => Ok(()),
            FileRead::Unreadable(e) => {
                push_text(warn, file_warning(path, e.as_str(), " (ignored)"));
                Ok(())
            },
            FileRead::Document(Err(ConfigError::Parse(e))) => {
                push_text(warn, file_warning(path, e.as_str(), " (file ignored)"));
                Ok(())
            },
            FileRead::Document(Err(e)) => Err(
                ConfigError::File { path: own(path), source: Box::new(e) },
            ),
            FileRead::Document(Ok(file)) => match self.merge_document(&file, env) {
                Ok(_) => Ok(()),
                Err(e) => Err(ConfigError::File { path: own(path), source: Box::new(e) }),
            },
        }
    }

    /// Loads a stack of files, each merged over the previous, then validates the result once.
    pub fn load(
        files: Vec<(String, FileRead)>,
        env: &Env,
        catalog: &Catalog,
        warn: &mut Vec<String>,
    ) -> (r: Result<Config, ConfigError>)
        ensures
            ({
                let (want, warned) = loading(files@, env@, *catalog);
                &&& strs(final(warn)@) == strs(old(warn)@) + warned
                &&& match want {
                    Ok(cfg) => r matches Ok(c) && c@ == cfg,
                    Err(fault) => r matches Err(e) && e@ == fault,
                }
            }),
    {
        let ghost all = files@;
        let mut rest: Vec<(String, FileRead)> = files;
        let mut cfg: Config = Config::default();
        let ghost mut i: int = 0;
        let ghost total = files_step(cfg@, all, 0, env@);
        let ghost mut warned: Seq<Seq<char>> = Seq::empty();
        proof {
            assert(all.skip(0) =~= all);
            assert(warned + total.1 =~= total.1);
            assert(strs(old(warn)@) + warned =~= strs(old(warn)@));
        }
        while rest.len() > 0
            invariant
                0 <= i <= all.len(),
                rest@ == all.skip(i),
                strs(warn@) == strs(old(warn)@) + warned,
                total.0 == files_step(cfg@, all, i, env@).0,
                total.1 == warned + files_step(cfg@, all, i, env@).1,
                total == loading_files(all, env@),
                all == files@,
            decreases rest@.len(),
        {
            let (path, read) = rest.remove(0);
            let ghost was = cfg@;
            let ghost step = file_step(was, path@, read, env@);
            proof {
                assert(all[i] == (path, read));
            }
            if let Err(e) = cfg.merge_file(path.as_str(), read, env, warn) {
                assert(strs(warn@) =~= strs(old(warn)@) + (warned + step.1));
                return Err(e);
            }
            proof {
                assert(rest@ =~= all.skip(i + 1));
                let more = files_step(cfg@, all, i + 1, env@).1;
                assert(warned + (step.1 + more) =~= (warned + step.1) + more);
                assert(strs(warn@) =~= strs(old(warn)@) + (warned + step.1));
                warned = warned + step.1;
                i = i + 1;
            }
        }
        proof {
            assert(warned + Seq::<Seq<char>>::empty() =~= warned);
        }
        let checked: Result<(), ConfigError> = cfg.validate(catalog, warn);
        assert(strs(warn@) =~= strs(old(warn)@) + (warned + models_warnings(
            cfg@,
            *catalog,
            pairs_of(cfg@.models),
            0,
        )));
        match checked {
            Ok(_) => Ok(cfg),
            Err(e) => Err(e),
        }
    }

    /// The cross-layer rules: every reference resolves, every `defer_mode` applies to the dialect of the
    /// provider its model points at, and login fields stand where there is something to log in to.
    pub fn validate(&self, catalog: &Catalog, warn: &mut Vec<String>) -> (r: Result<
        (),
        ConfigError,
    >)
        ensures
            strs(final(warn)@) == strs(old(warn)@) + models_warnings(
                self@,
                *catalog,
                pairs_of(self@.models),
                0,
            ),
            match config_fault(self@, *catalog) {
                None => r is Ok,
                Some(fault) => r matches Err(e) && e@ == fault,
            },
    {
        if let Err(e) = self.validate_models(catalog, warn) {
            return Err(e);
        }
        if let Err(e) = self.validate_servers() {
            return Err(e);
        }
        self.validate_agents()
    }

    /// The rules of the models.
    fn validate_models(&self, catalog: &Catalog, warn: &mut Vec<String>) -> (r: Result<
        (),
        ConfigError,
    >)
        ensures
            strs(final(warn)@) == strs(old(warn)@) + models_warnings(
                self@,
                *catalog,
                pairs_of(self@.models),
                0,
            ),
            match models_fault(self@, *catalog, pairs_of(self@.models), 0) {
                None => r is Ok,
                Some(fault) => r matches Err(e) && e@ == fault,
            },
    {
        let n: usize = self.models.len();
        let ghost pairs = self.models.pairs();
        let ghost all = models_warnings(self@, *catalog, pairs, 0);
        for i in 0..n
            invariant
                n == pairs.len(),
                pairs == self.models.pairs(),
                pairs == pairs_of(self@.models),
                all == models_warnings(self@, *catalog, pairs, 0),
                models_fault(self@, *catalog, pairs, 0) == models_fault(
                    self@,
                    *catalog,
                    pairs,
                    i as int,
                ),
                strs(old(warn)@) + all == strs(warn@) + models_warnings(
                    self@,
                    *catalog,
                    pairs,
                    i as int,
                ),
        {
            let name: &String = self.models.key_at(i);
            let m: &ModelConfig = self.models.value_at(i);
            let ghost was = strs(warn@);
            match self.check_model(catalog, name.as_str(), m) {
                Err(e) => {
                    assert(was + Seq::<Seq<char>>::empty() =~= was);
                    return Err(e);
                },
                Ok(None) => {
                    assert(was + (Seq::<Seq<char>>::empty() + models_warnings(
                        self@,
                        *catalog,
                        pairs,
                        i + 1,
                    )) =~= was + models_warnings(self@, *catalog, pairs, i + 1));
                },
                Ok(Some(w)) => {
                    let ghost text = w@;
                    push_text(warn, w);
                    assert(was + (seq![text] + models_warnings(self@, *catalog, pairs, i + 1))
                        =~= was.push(text) + models_warnings(self@, *catalog, pairs, i + 1));
                },
            }
        }
        assert(strs(warn@) + Seq::<Seq<char>>::empty() =~= strs(warn@));
        Ok(())
    }

    /// The rules of one model: its fault, or its warning.
    fn check_model(&self, catalog: &Catalog, name: &str, m: &ModelConfig) -> (r: Result<
        Option<String>,
        ConfigError,
    >)
        ensures
            match r {
                Ok(None) => model_fault(self@, *catalog, name@, m@) is None && model_warning(
                    name@,
                    m@,
                ) == Seq::<Seq<char>>::empty(),
                Ok(Some(w)) => model_fault(self@, *catalog, name@, m@) is None && model_warning(
                    name@,
                    m@,
                ) == seq![w@],
                Err(e) => model_fault(self@, *catalog, name@, m@) == Some(e@),
            },
    {
        let provider: &str = m.provider_or(name);
        if !self.knows_provider(provider) {
            let mut text: String = own("unknown provider ");
            text.append(quoted(provider).as_str());
            return Err(ConfigError::Model(own(name), text));
        }
        if m.defer_mode.as_str().is_empty() {
            return Ok(None);
        }
        match DeferMode::from_name(m.defer_mode.as_str()) {
            None => {
                let mut w: String = own("Warning: config models.");
                w.append(name);
                w.append(": unknown defer_mode ");
                w.append(quoted(m.defer_mode.as_str()).as_str());
                w.append(" (using normal)");
                Ok(Some(w))
            },
            Some(mode) => {
                let endpoint: Endpoint = self.provider(provider);
                match ProviderKind::from_name(endpoint.kind.as_str()) {
                    None => Ok(None),
                    Some(kind) => if catalog.supports(mode, kind) {
                        Ok(None)
                    } else {
                        Err(
                            ConfigError::DeferMode {
                                model: own(name),
                                mode: m.defer_mode.clone(),
                                kind,
                            },
                        )
                    },
                }
            },
        }
    }

    /// The rules of the servers.
    fn validate_servers(&self) -> (r: Result<(), ConfigError>)
        ensures
            match servers_fault(pairs_of(self@.mcp_servers), 0) {
                None => r is Ok,
                Some(fault) => r matches Err(e) && e@ == fault,
            },
    {
        let n: usize = self.mcp_servers.len();
        let ghost pairs = self.mcp_servers.pairs();
        for i in 0..n
            invariant
                n == pairs.len(),
                pairs == self.mcp_servers.pairs(),
                pairs == pairs_of(self@.mcp_servers),
                servers_fault(pairs, 0) == servers_fault(pairs, i as int),
        {
            let name: &String = self.mcp_servers.key_at(i);
            let s: &McpServerConfig = self.mcp_servers.value_at(i);
            let oauth = s.auth == AuthMode::Oauth;
            let has_id = !s.client_id.as_str().is_empty();
            let has_secret = !s.client_secret.as_str().is_empty();
            if oauth && s.url.as_str().is_empty() {
                return Err(
                    ConfigError::McpServer(
                        name.clone(),
                        own("auth: oauth needs a url (a stdio server has nothing to log in to)"),
                    ),
                );
            }
            if !oauth && (has_id || has_secret) {
                return Err(
                    ConfigError::McpServer(
                        name.clone(),
                        own("client_id/client_secret apply to `auth: oauth` servers only"),
                    ),
                );
            }
            if has_secret && !has_id {
                return Err(
                    ConfigError::McpServer(name.clone(), own("client_secret needs a client_id")),
                );
            }
        }
        Ok(())
    }

    /// The rules of the agents.
    fn validate_agents(&self) -> (r: Result<(), ConfigError>)
        ensures
            match agents_fault(self@, pairs_of(self@.agents), 0) {
                None => r is Ok,
                Some(fault) => r matches Err(e) && e@ == fault,
            },
    {
        let n: usize = self.agents.len();
        let ghost pairs = self.agents.pairs();
        for i in 0..n
            invariant
                n == pairs.len(),
                pairs == self.agents.pairs(),
                pairs == pairs_of(self@.agents),
                agents_fault(self@, pairs, 0) == agents_fault(self@, pairs, i as int),
        {
            let name: &String = self.agents.key_at(i);
            let a: &AgentConfig = self.agents.value_at(i);
            if a.models.len() == 0 {
                return Err(
                    ConfigError::Agent(
                        name.clone(),
                        own("models: at least one model is required"),
                    ),
                );
            }
            if let Err(e) = self.check_refs(name.as_str(), &a.models) {
                return Err(e);
            }
        }
        Ok(())
    }

    /// The references of one agent.
    fn check_refs(&self, name: &str, list: &Vec<ModelRef>) -> (r: Result<(), ConfigError>)
        ensures
            match refs_fault(self@, name@, refs(list@), 0) {
                None => r is Ok,
                Some(fault) => r matches Err(e) && e@ == fault,
            },
    {
        for i in 0..list.len()
            invariant
                refs_fault(self@, name@, refs(list@), 0) == refs_fault(
                    self@,
                    name@,
                    refs(list@),
                    i as int,
                ),
        {
            assert(refs(list@)[i as int] == list@[i as int]@);
            match &list[i] {
                ModelRef::Entry(entry) => {
                    if !self.models.contains_key(entry.as_str()) {
                        let mut text: String = own("models: unknown model ");
                        text.append(quoted(entry.as_str()).as_str());
                        return Err(ConfigError::Agent(own(name), text));
                    }
                },
                ModelRef::Inline { provider, .. } | ModelRef::All { provider } => {
                    if !self.knows_provider(provider.as_str()) {
                        let mut text: String = own("models: unknown provider ");
                        text.append(quoted(provider.as_str()).as_str());
                        return Err(ConfigError::Agent(own(name), text));
                    }
                },
            }
        }
        Ok(())
    }

    /// Whether `name` is a configured provider or a built-in type.
    pub fn knows_provider(&self, name: &str) -> (r: bool)
        ensures
            r == provider_known(self@, name@),
    {
        self.providers.contains_key(name) || ProviderKind::is_known(name)
    }

    /// The config file of a directory: the first of its candidates that exists.
    pub fn find_config_file(dir: &str, yaml_exists: bool, yml_exists: bool) -> (r: Option<String>)
        ensures
            opt_view(r) == if yaml_exists {
                Some(path_join(dir@, CONFIG_BASE@ + ".yaml"@))
            } else if yml_exists {
                Some(path_join(dir@, CONFIG_BASE@ + ".yml"@))
            } else {
                None
            },
    {
        let mut paths: Vec<String> = config_candidates(dir);
        assert(paths@.len() == strs(paths@).len());
        assert(strs(paths@)[0] == paths@[0]@ && strs(paths@)[1] == paths@[1]@);
        if yaml_exists {
            Some(paths.remove(0))
        } else if yml_exists {
            Some(paths.remove(1))
        } else {
            None
        }
    }

    /// The files an invocation reads, in merge order: the one given by name alone, whether or not it exists,
    /// else the one found in the home directory followed by the one found in the working directory.
    pub fn sources(explicit: Option<String>, home: Option<String>, cwd: Option<String>) -> (r: Vec<
        String,
    >)
        ensures
            strs(r@) == source_list(opt_view(explicit), opt_view(home), opt_view(cwd)),
    {
        let mut r: Vec<String> = Vec::new();
        match explicit {
            Some(path) => r.push(path),
            None => {
                if let Some(path) = home {
                    r.push(path);
                }
                if let Some(path) = cwd {
                    r.push(path);
                }
            },
        }
        assert(strs(r@) =~= source_list(opt_view(explicit), opt_view(home), opt_view(cwd)));
        r
    }

    /// The endpoint a provider name reaches: the `providers:` entry and the TYPE behind it, or — for a name no
    /// entry declares — the built-in type of that name over a default entry.
    pub fn provider(&self, name: &str) -> (r: Endpoint)
        ensures
            r.kind@ == endpoint_kind(self@, name@),
            r.config@ == endpoint_entry(self@, name@),
    {
        match self.providers.get(name) {
            Some(entry) => Endpoint { kind: own(entry.kind_or(name)), config: entry.duplicate() },
            None => Endpoint { kind: own(name), config: ProviderConfig::default() },
        }
    }

    /// The agent a run without a name falls back to, when the config declares it.
    pub fn default_agent(&self) -> (r: Option<&'static str>)
        ensures
            match r {
                Some(name) => name@ == DEFAULT_AGENT@ && self@.agents.contains_key(DEFAULT_AGENT@),
                None => !self@.agents.contains_key(DEFAULT_AGENT@),
            },
    {
        if self.agents.contains_key(DEFAULT_AGENT) {
            Some(DEFAULT_AGENT)
        } else {
            None
        }
    }

    /// What `name` resolves to: the `agents:` entry alone, with the model it defaults to and the endpoint that
    /// model rides on. `None` = no such agent.
    pub fn resolve_agent(&self, name: &str) -> (r: Option<Resolved>)
        ensures
            match r {
                Some(v) => resolution(self@, name@) == Some(v@),
                None => resolution(self@, name@) is None,
            },
    {
        match self.agents.get(name) {
            None => None,
            Some(agent) => {
                let model: ModelConfig = if agent.models.len() > 0 {
                    match self.model_of(&agent.models[0]) {
                        Some(m) => m,
                        None => ModelConfig::default(),
                    }
                } else {
                    ModelConfig::default()
                };
                let mut resolved: Resolved = self.finish(name, model, agent.duplicate());
                resolved.agent_name = own(name);
                Some(resolved)
            },
        }
    }

    /// The model a reference names.
    pub fn model_of(&self, r: &ModelRef) -> (m: Option<ModelConfig>)
        ensures
            match m {
                Some(v) => ref_model(self@, r@) == Some(v@),
                None => ref_model(self@, r@) is None,
            },
    {
        match r {
            ModelRef::Entry(name) => match self.models.get(name.as_str()) {
                Some(entry) => {
                    let mut m: ModelConfig = entry.duplicate();
                    m.anchor_provider(name.as_str());
                    Some(m)
                },
                None => None,
            },
            ModelRef::Inline { provider, id } => {
                let mut m: ModelConfig = ModelConfig::default();
                m.provider = provider.clone();
                m.id = id.clone();
                Some(m)
            },
            ModelRef::All { provider } => {
                let mut m: ModelConfig = ModelConfig::default();
                m.provider = provider.clone();
                Some(m)
            },
        }
    }

    /// Fills the endpoint half of a [`Resolved`] from whatever provider the model landed on.
    fn finish(&self, name: &str, model: ModelConfig, agent: AgentConfig) -> (r: Resolved)
        ensures
            r@ == finished(self@, name@, model@, agent@),
    {
        let provider_name: String = own(model.provider_or(name));
        let endpoint: Endpoint = self.provider(provider_name.as_str());
        Resolved {
            name: own(name),
            provider_name,
            provider_type: endpoint.kind,
            provider: endpoint.config,
            model,
            agent,
            agent_name: String::new(),
        }
    }

    /// Every agent a run may name, in name order.
    pub fn agent_names(&self) -> (r: Vec<String>)
        ensures
            strs(r@) == Seq::new(
                pairs_of(self@.agents).len(),
                |i: int| pairs_of(self@.agents)[i].0,
            ),
    {
        let n: usize = self.agents.len();
        let mut r: Vec<String> = Vec::new();
        for i in 0..n
            invariant
                n == self.agents.pairs().len(),
                r@.len() == i,
                forall|k: int| 0 <= k < i ==> (#[trigger] r@[k])@ == self.agents.pairs()[k].0,
        {
            r.push(self.agents.key_at(i).clone());
        }
        assert(strs(r@) =~= Seq::new(
            pairs_of(self@.agents).len(),
            |i: int| pairs_of(self@.agents)[i].0,
        ));
        r
    }

    /// The servers an agent loads: all when it names none, else exactly the named ones.
    pub fn mcp_servers_for(&self, agent: &AgentConfig) -> (r: Result<
        StrMap<McpServerConfig>,
        ConfigError,
    >)
        ensures
            selects(r, self@.mcp_servers, agent@.mcp_servers),
    {
        select_servers(&self.mcp_servers, &agent.mcp_servers)
    }

    /// Whether a reference covers the model `id` of `provider_name`.
    pub fn ref_covers(&self, r: &ModelRef, provider_name: &str, id: &str) -> (b: bool)
        ensures
            b == ref_covers(self@, r@, provider_name@, id@),
    {
        match r {
            ModelRef::Entry(name) => match self.models.get(name.as_str()) {
                Some(m) => same(m.provider_or(name.as_str()), provider_name) && same(
                    m.id.as_str(),
                    id,
                ),
                None => false,
            },
            ModelRef::Inline { provider, id: want } => same(provider.as_str(), provider_name)
                && same(want.as_str(), id),
            ModelRef::All { provider } => same(provider.as_str(), provider_name),
        }
    }
}

/// The files an invocation reads, in merge order.
pub open spec fn source_list(
    explicit: Option<Seq<char>>,
    home: Option<Seq<char>>,
    cwd: Option<Seq<char>>,
) -> Seq<Seq<char>> {
    match explicit {
        Some(path) => seq![path],
        None => one(home) + one(cwd),
    }
}

/// A list of at most one.
pub open spec fn one(o: Option<Seq<char>>) -> Seq<Seq<char>> {
    match o {
        Some(x) => seq![x],
        None => Seq::empty(),
    }
}

} // verus!
