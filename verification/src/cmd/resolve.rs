//! Run resolution: the agent lookup, the precedence of model, key and system prompt, the message rules and the
//! temperature range — everything that is decided before a provider is built.

use vstd::prelude::*;
use vstd::string::*;

use crate::app::env::{Env, EnvView};
use crate::chat::turns::turn_cap;
use crate::cmd::args::{Invocation, Resume};
use crate::cmd::error::{ArgsError, CliError, SetupError};
use crate::config::error::ConfigError;
use crate::config::model::{
    anchored, blank_model, refs, ModelConfig, ModelRef, ModelView, RefView,
};
use crate::config::provider::{key_from, or_else, ApiKey, KeyView};
use crate::config::{
    covered, moved, provider_known, resolution, Config, ConfigView, Resolved, ResolvedView,
    DEFAULT_AGENT,
};
use crate::double::Double;
use crate::map::{pairs_of, Duplicate};
use crate::provider::{opt_view, Catalog};
use crate::text::{
    debug_text, first_at, lossy_text, own, push_text, quoted, read_lossy, same, split_once, strs,
    trim, trimmed,
};

verus! {

// ---------------------------------------------------------------- the model flag

/// Whether the entry `name` serves the model `id` of a provider.
pub open spec fn serves(name: Seq<char>, m: ModelView, provider: Seq<char>, id: Seq<char>) -> bool {
    or_else(m.provider, name) == provider && m.id == id
}

/// The first candidate from `i` on that is an entry serving the pair.
pub open spec fn candidate_from(
    cfg: ConfigView,
    list: Seq<RefView>,
    provider: Seq<char>,
    id: Seq<char>,
    i: int,
) -> Option<ModelView>
    decreases list.len() - i,
{
    if i < 0 || i >= list.len() {
        None
    } else {
        match list[i] {
            RefView::Entry(name) => if cfg.models.contains_key(name) && serves(
                name,
                cfg.models[name],
                provider,
                id,
            ) {
                Some(anchored(cfg.models[name], name))
            } else {
                candidate_from(cfg, list, provider, id, i + 1)
            },
            _ => candidate_from(cfg, list, provider, id, i + 1),
        }
    }
}

/// The first entry from `i` on, in name order, that serves the pair.
pub open spec fn entry_serving(
    pairs: Seq<(Seq<char>, ModelView)>,
    provider: Seq<char>,
    id: Seq<char>,
    i: int,
) -> Option<ModelView>
    decreases pairs.len() - i,
{
    if i < 0 || i >= pairs.len() {
        None
    } else if serves(pairs[i].0, pairs[i].1, provider, id) {
        Some(anchored(pairs[i].1, pairs[i].0))
    } else {
        entry_serving(pairs, provider, id, i + 1)
    }
}

/// The model a `provider:id` pair stands for: a candidate that serves it, else any entry that does, else the
/// bare pair with every other field at its default.
pub open spec fn pair_model(
    cfg: ConfigView,
    list: Seq<RefView>,
    provider: Seq<char>,
    id: Seq<char>,
) -> ModelView {
    let candidate = candidate_from(cfg, list, provider, id, 0);
    let entry = entry_serving(pairs_of(cfg.models), provider, id, 0);
    if candidate is Some {
        candidate->0
    } else if entry is Some {
        entry->0
    } else {
        ModelView { provider, id, ..blank_model() }
    }
}

/// A resolution under the model flag: `provider:id` moves to that provider, `provider:*` moves there with no
/// model chosen, a candidate's name brings its own provider, and everything else is a model id on the provider
/// the run resolved to.
pub open spec fn flagged(r: ResolvedView, cfg: ConfigView, flag: Seq<char>) -> ResolvedView {
    let colon = first_at(flag, ':');
    let left = flag.take(colon);
    let right = flag.skip(colon + 1);
    let pair = colon < flag.len() && provider_known(cfg, left);
    let unchosen = |x: ResolvedView|
        ResolvedView { model: ModelView { id: Seq::empty(), ..x.model }, ..x };
    if flag.len() == 0 {
        unchosen(r)
    } else if pair && right == "*"@ {
        unchosen(moved(cfg, r, left))
    } else if pair && right.len() > 0 {
        moved(
            cfg,
            ResolvedView { model: pair_model(cfg, r.agent.models, left, right), ..r },
            left,
        )
    } else if cfg.models.contains_key(flag) && r.agent.models.contains(RefView::Entry(flag)) {
        let m = anchored(cfg.models[flag], flag);
        moved(cfg, ResolvedView { model: m, ..r }, m.provider)
    } else {
        ResolvedView { model: pair_model(cfg, r.agent.models, r.provider_name, flag), ..r }
    }
}

/// The warning about a model outside the candidate set; it is used anyway.
pub open spec fn flag_warning(r: ResolvedView, cfg: ConfigView) -> Seq<Seq<char>> {
    if r.agent.models.len() > 0 && r.model.id.len() > 0 && !covered(
        cfg,
        r.agent.models,
        r.provider_name,
        r.model.id,
    ) {
        seq![
            "Warning: model "@ + r.provider_name + ":"@ + r.model.id + " is not in agent "@
                + debug_text(r.name) + "'s models (using it anyway)"@,
        ]
    } else {
        Seq::empty()
    }
}

/// The model a `provider:id` pair stands for.
pub fn model_at(r: &Resolved, cfg: &Config, provider: &str, id: &str) -> (m: ModelConfig)
    ensures
        m@ == pair_model(cfg@, r@.agent.models, provider@, id@),
{
    let list: &Vec<ModelRef> = &r.agent.models;
    let ghost all = refs(list@);
    for i in 0..list.len()
        invariant
            all == refs(list@),
            all == r@.agent.models,
            candidate_from(cfg@, all, provider@, id@, 0) == candidate_from(
                cfg@,
                all,
                provider@,
                id@,
                i as int,
            ),
    {
        assert(all[i as int] == list@[i as int]@);
        if let ModelRef::Entry(name) = &list[i] {
            if let Some(entry) = cfg.models.get(name.as_str()) {
                if same(entry.provider_or(name.as_str()), provider) && same(
                    entry.id.as_str(),
                    id,
                ) {
                    let mut m: ModelConfig = entry.duplicate();
                    m.anchor_provider(name.as_str());
                    return m;
                }
            }
        }
    }
    let n: usize = cfg.models.len();
    let ghost pairs = cfg.models.pairs();
    for i in 0..n
        invariant
            n == pairs.len(),
            pairs == cfg.models.pairs(),
            pairs == pairs_of(cfg@.models),
            candidate_from(cfg@, r@.agent.models, provider@, id@, 0) is None,
            entry_serving(pairs, provider@, id@, 0) == entry_serving(
                pairs,
                provider@,
                id@,
                i as int,
            ),
    {
        let name: &String = cfg.models.key_at(i);
        let entry: &ModelConfig = cfg.models.value_at(i);
        if same(entry.provider_or(name.as_str()), provider) && same(entry.id.as_str(), id) {
            let mut m: ModelConfig = entry.duplicate();
            m.anchor_provider(name.as_str());
            return m;
        }
    }
    let mut m: ModelConfig = ModelConfig::default();
    m.provider = own(provider);
    m.id = own(id);
    m
}

/// Whether a list of references holds the entry `name`.
fn lists_entry(list: &Vec<ModelRef>, name: &str) -> (r: bool)
    ensures
        r == refs(list@).contains(RefView::Entry(name@)),
{
    for i in 0..list.len()
        invariant
            forall|k: int| 0 <= k < i ==> #[trigger] refs(list@)[k] != RefView::Entry(name@),
    {
        if let ModelRef::Entry(n) = &list[i] {
            if same(n.as_str(), name) {
                assert(refs(list@)[i as int] == RefView::Entry(name@));
                return true;
            }
        }
    }
    false
}

/// Where the model flag points a resolution.
fn point(r: &mut Resolved, cfg: &Config, flag: &str)
    ensures
        final(r)@ == flagged(old(r)@, cfg@, flag@),
{
    if flag.is_empty() {
        r.model.id = String::new();
        return ;
    }
    if let Some((left, right)) = split_once(flag, ':') {
        if cfg.knows_provider(left.as_str()) {
            if same(right.as_str(), "*") {
                r.move_to_provider(cfg, left.as_str());
                r.model.id = String::new();
                return ;
            }
            if !right.as_str().is_empty() {
                r.model = model_at(r, cfg, left.as_str(), right.as_str());
                r.move_to_provider(cfg, left.as_str());
                return ;
            }
        }
    }
    if let Some(entry) = cfg.models.get(flag) {
        if lists_entry(&r.agent.models, flag) {
            let mut m: ModelConfig = entry.duplicate();
            m.anchor_provider(flag);
            let provider: String = m.provider.clone();
            r.model = m;
            r.move_to_provider(cfg, provider.as_str());
            return ;
        }
    }
    let provider: String = r.provider_name.clone();
    r.model = model_at(r, cfg, provider.as_str(), flag);
}

/// Applies the model flag. A model outside the candidate set is a WARNING, never a refusal.
pub fn apply_model_flag(r: &mut Resolved, cfg: &Config, flag: &str, warn: &mut Vec<String>)
    ensures
        final(r)@ == flagged(old(r)@, cfg@, flag@),
        strs(final(warn)@) == strs(old(warn)@) + if flag@.len() == 0 {
            Seq::empty()
        } else {
            flag_warning(final(r)@, cfg@)
        },
{
    point(r, cfg, flag);
    assert(strs(old(warn)@) + Seq::<Seq<char>>::empty() =~= strs(old(warn)@));
    if flag.is_empty() {
        return ;
    }
    if r.agent.models.len() > 0 && !r.model.id.as_str().is_empty() && !r.covers(
        cfg,
        r.provider_name.as_str(),
        r.model.id.as_str(),
    ) {
        let mut w: String = own("Warning: model ");
        w.append(r.provider_name.as_str());
        w.append(":");
        w.append(r.model.id.as_str());
        w.append(" is not in agent ");
        w.append(quoted(r.name.as_str()).as_str());
        w.append("'s models (using it anyway)");
        push_text(warn, w);
    }
}

/// The flag alone decides the model: what a run resolved to first does not show in the model of a
/// `provider:id` pair.
pub proof fn flag_replaces_the_model(
    r: ResolvedView,
    other: ModelView,
    cfg: ConfigView,
    flag: Seq<char>,
)
    requires
        flag.len() > 0,
        first_at(flag, ':') < flag.len(),
        provider_known(cfg, flag.take(first_at(flag, ':'))),
        flag.skip(first_at(flag, ':') + 1).len() > 0,
        flag.skip(first_at(flag, ':') + 1) != "*"@,
    ensures
        flagged(r, cfg, flag) == flagged(ResolvedView { model: other, ..r }, cfg, flag),
        flagged(r, cfg, flag).provider_name == flag.take(first_at(flag, ':')),
{
}

// ---------------------------------------------------------------- the run

/// What was decided for one invocation.
pub struct RunSettings {
    /// The agent this run is.
    pub name: String,
    /// The resolved provider type.
    pub raw_type: String,
    /// The three config layers this run landed on.
    pub resolved: Resolved,
    /// The API key.
    pub api_key: String,
    /// The base URL (empty = the dialect's own).
    pub base_url: String,
    /// The model (may be empty without a message).
    pub model: String,
    /// The system prompt (empty = none).
    pub system: String,
    /// The message; `None` is an interactive run.
    pub message: Option<String>,
    /// The temperature the agent or its model declares.
    pub temperature: Option<Double>,
    /// Whether the agent works in a workspace.
    pub agent_mode: bool,
    /// The turn cap (`None` = unlimited).
    pub max_turns: Option<u32>,
    /// `--output-format` as typed.
    pub output_format_raw: Option<String>,
    /// The session id fragment to resume.
    pub resume: Option<String>,
}

/// What a [`RunSettings`] says.
pub struct SettingsView {
    pub name: Seq<char>,
    pub raw_type: Seq<char>,
    pub resolved: ResolvedView,
    pub api_key: Seq<char>,
    pub base_url: Seq<char>,
    pub model: Seq<char>,
    pub system: Seq<char>,
    pub message: Option<Seq<char>>,
    pub temperature: Option<Double>,
    pub agent_mode: bool,
    pub max_turns: Option<u32>,
    pub output_format_raw: Option<Seq<char>>,
    pub resume: Option<Seq<char>>,
}

impl View for RunSettings {
    type V = SettingsView;

    open spec fn view(&self) -> SettingsView {
        SettingsView {
            name: self.name@,
            raw_type: self.raw_type@,
            resolved: self.resolved@,
            api_key: self.api_key@,
            base_url: self.base_url@,
            model: self.model@,
            system: self.system@,
            message: opt_view(self.message),
            temperature: self.temperature,
            agent_mode: self.agent_mode,
            max_turns: self.max_turns,
            output_format_raw: opt_view(self.output_format_raw),
            resume: opt_view(self.resume),
        }
    }
}

/// What the outside gives a resolution: the file that holds the system prompt, and standard input.
pub struct Given {
    /// What reading the system file gave: its bytes, or the text of the failure.
    pub system: Result<Vec<u8>, String>,
    /// What reading standard input gave: its bytes, or the text of the failure.
    pub stdin: Result<Vec<u8>, String>,
}

/// How a resolution ends: the settings, or the first thing that is wrong.
pub enum RunCase {
    NoAgent,
    UnknownAgent(Seq<char>),
    SystemFile(Seq<char>),
    KeyMissing(Seq<char>, Seq<char>),
    StdinFailed(Seq<char>),
    StdinEmpty,
    MessageEmpty,
    ModelMissing(Seq<char>),
    BadTemperature(Double),
    Ready(SettingsView),
}

/// The agent of an invocation: the one it names, else the default one when the config declares it.
pub open spec fn agent_of(inv: Invocation, cfg: ConfigView) -> Option<Seq<char>> {
    match inv.agent {
        Some(name) => Some(name@),
        None => if cfg.agents.contains_key(DEFAULT_AGENT@) {
            Some(DEFAULT_AGENT@)
        } else {
            None
        },
    }
}

/// The resolution of an invocation: the agent's, under the model flag.
pub open spec fn resolution_of(inv: Invocation, cfg: ConfigView) -> Option<ResolvedView> {
    match agent_of(inv, cfg) {
        None => None,
        Some(name) => match (resolution(cfg, name), inv.args.model) {
            (None, _) => None,
            (Some(r), None) => Some(r),
            (Some(r), Some(flag)) => Some(flagged(r, cfg, flag@)),
        },
    }
}

/// The system prompt of a run: the flag, else the agent's own, else its file's.
pub open spec fn prompt_of(inv: Invocation, r: ResolvedView, given: Given) -> Result<
    Seq<char>,
    Seq<char>,
> {
    match inv.args.system {
        Some(flag) => Ok(flag@),
        None => if r.agent.system.len() > 0 || r.agent.system_file.len() == 0 {
            Ok(r.agent.system)
        } else {
            match given.system {
                Ok(data) => Ok(lossy_text(data@)),
                Err(e) => Err("open "@ + r.agent.system_file + ": "@ + e@),
            }
        },
    }
}

/// The message of a run: the flag, or what standard input holds for `-`.
pub open spec fn message_of(inv: Invocation, given: Given) -> Result<Option<Seq<char>>, RunCase> {
    match inv.args.message {
        None => Ok(None),
        Some(m) => if m@ == "-"@ {
            match given.stdin {
                Err(e) => Err(RunCase::StdinFailed(e@)),
                Ok(data) => if trimmed(lossy_text(data@)).len() == 0 {
                    Err(RunCase::StdinEmpty)
                } else {
                    Ok(Some(trimmed(lossy_text(data@))))
                },
            }
        } else if m@.len() == 0 {
            Err(RunCase::MessageEmpty)
        } else {
            Ok(Some(m@))
        },
    }
}

/// The temperature of a resolution: the agent's, else the model's.
pub open spec fn temperature_of(r: ResolvedView) -> Option<Double> {
    if r.agent.temperature is Some {
        r.agent.temperature
    } else {
        r.model.temperature
    }
}

/// The id fragment of an invocation.
pub open spec fn fragment_of(inv: Invocation) -> Option<Seq<char>> {
    match inv.resume {
        Some(Resume::Id(id)) => Some(id@),
        _ => None,
    }
}

/// How the resolution of an invocation ends. The order of the checks is the order of the errors: the agent, the
/// system prompt, the key, the message, the model — which a resumed session may still supply — and the
/// temperature.
pub open spec fn run_case(
    inv: Invocation,
    cfg: ConfigView,
    catalog: Catalog,
    env: EnvView,
    given: Given,
) -> RunCase {
    match agent_of(inv, cfg) {
        None => RunCase::NoAgent,
        Some(name) => match resolution_of(inv, cfg) {
            None => RunCase::UnknownAgent(name),
            Some(r) => match prompt_of(inv, r, given) {
                Err(e) => RunCase::SystemFile(e),
                Ok(system) => match key_from(
                    catalog.key_variable(r.provider_type),
                    r.provider,
                    env,
                ) {
                    KeyView::Missing(var) => RunCase::KeyMissing(var, r.provider_name),
                    KeyView::Env(_, key) => with_key(inv, name, r, system, key, given),
                    KeyView::Config(key) => with_key(inv, name, r, system, key, given),
                },
            },
        },
    }
}

/// How the resolution of an invocation that has a key ends.
pub open spec fn with_key(
    inv: Invocation,
    name: Seq<char>,
    r: ResolvedView,
    system: Seq<char>,
    key: Seq<char>,
    given: Given,
) -> RunCase {
    match message_of(inv, given) {
        Err(case) => case,
        Ok(message) => {
            let t = temperature_of(r);
            if message is Some && r.model.id.len() == 0 && inv.resume is None {
                RunCase::ModelMissing(name)
            } else if t is Some && !t->0.from_zero_to_pow2(1) {
                RunCase::BadTemperature(t->0)
            } else {
                RunCase::Ready(
                    SettingsView {
                        name,
                        raw_type: r.provider_type,
                        resolved: r,
                        api_key: key,
                        base_url: r.provider.url,
                        model: r.model.id,
                        system,
                        message,
                        temperature: t,
                        agent_mode: r.agent.workspace,
                        max_turns: if 0 < inv.args.max_turns <= u32::MAX {
                            Some(inv.args.max_turns as u32)
                        } else {
                            None
                        },
                        output_format_raw: opt_view(inv.args.output_format),
                        resume: fragment_of(inv),
                    },
                )
            }
        },
    }
}

/// Whether a result is the one a case stands for.
pub open spec fn is_case(r: Result<RunSettings, CliError>, case: RunCase, cfg: ConfigView) -> bool {
    match case {
        RunCase::NoAgent => r matches Err(CliError::Args(ArgsError::NoAgent)),
        RunCase::UnknownAgent(n) => r matches Err(CliError::Args(ArgsError::UnknownAgent {
            name,
            agents,
        })) && name@ == n && strs(agents@) == Seq::new(
            pairs_of(cfg.agents).len(),
            |i: int| pairs_of(cfg.agents)[i].0,
        ),
        RunCase::SystemFile(e) => r matches Err(
            CliError::Setup(SetupError::Config(ConfigError::SystemFile(m))),
        ) && m@ == e,
        RunCase::KeyMissing(var, p) => r matches Err(
            CliError::Setup(SetupError::ApiKeyRequired { env, provider }),
        ) && env@ == var && provider@ == p,
        RunCase::StdinFailed(e) => r matches Err(CliError::Args(ArgsError::Stdin(m))) && m@ == e,
        RunCase::StdinEmpty => r matches Err(CliError::Args(ArgsError::EmptyStdin)),
        RunCase::MessageEmpty => r matches Err(CliError::Args(ArgsError::MessageEmpty)),
        RunCase::ModelMissing(n) => r matches Err(
            CliError::Args(ArgsError::ModelRequired { agent }),
        ) && agent@ == n,
        RunCase::BadTemperature(t) => r matches Err(
            CliError::Setup(SetupError::ConfigTemperature(d)),
        ) && d == t,
        RunCase::Ready(s) => r matches Ok(v) && v@ == s,
    }
}

/// The agent lookup, with the unknown-name error that lists the agents there ARE.
pub fn resolve_agent(cfg: &Config, name: &str) -> (r: Result<Resolved, ArgsError>)
    ensures
        match resolution(cfg@, name@) {
            Some(v) => r matches Ok(x) && x@ == v,
            None => r matches Err(ArgsError::UnknownAgent { name: n, agents }) && n@ == name@
                && strs(agents@) == Seq::new(
                pairs_of(cfg@.agents).len(),
                |i: int| pairs_of(cfg@.agents)[i].0,
            ),
        },
{
    match cfg.resolve_agent(name) {
        Some(r) => Ok(r),
        None => Err(ArgsError::UnknownAgent { name: own(name), agents: cfg.agent_names() }),
    }
}

/// The message that standard input holds: all of it, trimmed.
pub fn read_stdin_message(stdin: &Result<Vec<u8>, String>) -> (r: Result<String, ArgsError>)
    ensures
        match stdin {
            Err(e) => r matches Err(ArgsError::Stdin(m)) && m@ == e@,
            Ok(data) => if trimmed(lossy_text(data@)).len() == 0 {
                r matches Err(ArgsError::EmptyStdin)
            } else {
                r matches Ok(t) && t@ == trimmed(lossy_text(data@))
            },
        },
{
    match stdin {
        Err(e) => Err(ArgsError::Stdin(e.clone())),
        Ok(data) => message_in(read_lossy(data.as_slice()).as_str()),
    }
}

/// The message that a text holds: all of it, trimmed.
pub fn message_in(text: &str) -> (r: Result<String, ArgsError>)
    ensures
        if trimmed(text@).len() == 0 {
            r matches Err(ArgsError::EmptyStdin)
        } else {
            r matches Ok(t) && t@ == trimmed(text@)
        },
{
    let message: String = trim(text);
    if message.as_str().is_empty() {
        Err(ArgsError::EmptyStdin)
    } else {
        Ok(message)
    }
}

/// Resolves one invocation. The model flag is applied BEFORE the key, because it may name another endpoint.
#[verifier::rlimit(60)]
#[verifier::spinoff_prover]
pub fn resolve_run(
    inv: &Invocation,
    cfg: &Config,
    catalog: &Catalog,
    env: &Env,
    given: Given,
    warn: &mut Vec<String>,
) -> (r: Result<RunSettings, CliError>)
    ensures
        is_case(r, run_case(*inv, cfg@, *catalog, env@, given), cfg@),
        strs(final(warn)@) == strs(old(warn)@) + match (resolution_of(*inv, cfg@), inv.args.model) {
            (Some(v), Some(flag)) => if flag@.len() == 0 {
                Seq::empty()
            } else {
                flag_warning(v, cfg@)
            },
            _ => Seq::empty(),
        },
{
    assert(strs(old(warn)@) + Seq::<Seq<char>>::empty() =~= strs(old(warn)@));
    let name: String = match &inv.agent {
        Some(name) => name.clone(),
        None => match cfg.default_agent() {
            Some(name) => own(name),
            None => return Err(CliError::Args(ArgsError::NoAgent)),
        },
    };
    let mut resolved: Resolved = match resolve_agent(cfg, name.as_str()) {
        Ok(r) => r,
        Err(e) => return Err(CliError::Args(e)),
    };
    if let Some(flag) = &inv.args.model {
        apply_model_flag(&mut resolved, cfg, flag.as_str(), warn);
    }
    assert(resolution_of(*inv, cfg@) == Some(resolved@));
    let system: String = match &inv.args.system {
        Some(flag) => flag.clone(),
        None => match resolved.agent.resolve_system(given.system) {
            Ok(s) => s,
            Err(e) => return Err(CliError::Setup(SetupError::Config(e))),
        },
    };
    let api_key: String = match resolved.endpoint().api_key(catalog, env) {
        ApiKey::Env { key, .. } => key,
        ApiKey::Config(key) => key,
        ApiKey::Missing { var } => {
            return Err(
                CliError::Setup(
                    SetupError::ApiKeyRequired {
                        env: var,
                        provider: resolved.provider_name.clone(),
                    },
                ),
            );
        },
    };
    let message: Option<String> = match &inv.args.message {
        None => None,
        Some(m) => if same(m.as_str(), "-") {
            match read_stdin_message(&given.stdin) {
                Ok(t) => Some(t),
                Err(e) => return Err(CliError::Args(e)),
            }
        } else if m.as_str().is_empty() {
            return Err(CliError::Args(ArgsError::MessageEmpty));
        } else {
            Some(m.clone())
        },
    };
    if message.is_some() && resolved.model.id.as_str().is_empty() && inv.resume.is_none() {
        return Err(CliError::Args(ArgsError::ModelRequired { agent: name }));
    }
    let temperature: Option<Double> = resolved.temperature();
    if let Some(t) = temperature {
        if !t.in_double_range() {
            return Err(CliError::Setup(SetupError::ConfigTemperature(t)));
        }
    }
    let resume: Option<String> = match &inv.resume {
        Some(Resume::Id(id)) => Some(id.clone()),
        _ => None,
    };
    Ok(
        RunSettings {
            name,
            raw_type: resolved.provider_type.clone(),
            api_key,
            base_url: resolved.provider.url.clone(),
            model: resolved.model.id.clone(),
            system,
            message,
            temperature,
            agent_mode: resolved.agent.workspace,
            max_turns: turn_cap(inv.args.max_turns),
            output_format_raw: inv.args.output_format.clone(),
            resume,
            resolved,
        },
    )
}

/// A run that is ready has a message that is not empty, or none; a key that is not empty; and a model, unless
/// it is interactive or resumes a session.
pub proof fn ready_runs_are_complete(
    inv: Invocation,
    cfg: ConfigView,
    catalog: Catalog,
    env: EnvView,
    given: Given,
)
    ensures
        run_case(inv, cfg, catalog, env, given) matches RunCase::Ready(s) ==> {
            &&& s.message matches Some(m) ==> m.len() > 0
            &&& s.api_key.len() > 0
            &&& s.message is Some && inv.resume is None ==> s.model.len() > 0
            &&& s.temperature matches Some(t) ==> t.from_zero_to_pow2(1)
            &&& cfg.agents.contains_key(s.name)
        },
{
}

} // verus!
