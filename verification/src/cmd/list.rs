//! `iota list [agents|models|providers|sessions]` — what this installation can run, read off the config and the
//! session store. Nothing here touches the network or needs a key.

use vstd::prelude::*;
use vstd::string::*;

use crate::app::env::{Env, EnvView};
use crate::cmd::args::{ListCmd, ListWhat};
use crate::cmd::error::{ArgsError, CliError, SetupError};
use crate::cmd::io::Streams;
use crate::cmd::resolve::resolve_agent;
use crate::cmd::table::{pad, padded};
use crate::config::agent::{AgentConfig, AgentView};
use crate::config::model::{ref_text, refs, ModelConfig, ModelRef, ModelView, RefView};
use crate::config::provider::{key_from, or_else, ApiKey, Endpoint, KeyView, ProviderConfig};
use crate::config::{
    endpoint_entry, endpoint_kind, ref_covers, resolution, Config, ConfigView, Resolved,
    ResolvedView,
};
use crate::map::pairs_of;
use crate::provider::Catalog;
use crate::text::{decimal, decimal_of, own, same, strs};

verus! {

/// The model column of an agent whose run starts in the picker.
pub const PICKER: &'static str = "(picker)";

/// The word for what is listed.
pub open spec fn what_word(what: ListWhat) -> Seq<char> {
    match what {
        ListWhat::Agents => "agents"@,
        ListWhat::Models => "models"@,
        ListWhat::Providers => "providers"@,
        ListWhat::Sessions => "sessions"@,
    }
}

/// What a listing lists when nothing is said.
pub open spec fn what_of(cmd: ListCmd) -> ListWhat {
    match cmd.what {
        Some(w) => w,
        None => ListWhat::Agents,
    }
}

/// What to list: the agents unless something else is named. Only the models take the name of an agent.
pub fn list_target(cmd: &ListCmd) -> (r: Result<ListWhat, ArgsError>)
    ensures
        if cmd.agent is Some && what_of(*cmd) != ListWhat::Models {
            r matches Err(ArgsError::ListTakesNoName(w)) && w@ == what_word(what_of(*cmd))
        } else {
            r matches Ok(w) && w == what_of(*cmd)
        },
{
    let what: ListWhat = match cmd.what {
        Some(w) => w,
        None => ListWhat::Agents,
    };
    if cmd.agent.is_some() && what != ListWhat::Models {
        let word: &str = match what {
            ListWhat::Agents => "agents",
            ListWhat::Models => "models",
            ListWhat::Providers => "providers",
            ListWhat::Sessions => "sessions",
        };
        return Err(ArgsError::ListTakesNoName(own(word)));
    }
    Ok(what)
}

// ---------------------------------------------------------------- agents

/// The model a run of an agent starts on: its first one, unless that is a wildcard.
pub open spec fn start_of(a: AgentView) -> Option<RefView> {
    if a.models.len() > 0 && !(a.models[0] is All) {
        Some(a.models[0])
    } else {
        None
    }
}

/// What an agent chooses from: its own models, or every entry of `models:` when it lists none.
pub open spec fn choices_of(cfg: ConfigView, a: AgentView) -> Seq<RefView> {
    if a.models.len() > 0 {
        a.models
    } else {
        Seq::new(pairs_of(cfg.models).len(), |i: int| RefView::Entry(pairs_of(cfg.models)[i].0))
    }
}

/// The model column of an agent.
pub open spec fn start_text(a: AgentView) -> Seq<char> {
    match start_of(a) {
        Some(r) => ref_text(r),
        None => PICKER@,
    }
}

/// How many choices there are, in words.
pub open spec fn choices_text(n: nat) -> Seq<char> {
    if n == 1 {
        "1 choice"@
    } else {
        decimal_of(n) + " choices"@
    }
}

/// One line of the agents.
pub open spec fn agent_line(
    cfg: ConfigView,
    name: Seq<char>,
    a: AgentView,
    width: int,
    start_width: int,
) -> Seq<char> {
    let line = "  "@ + padded(name, width) + "  "@ + padded(start_text(a), start_width) + "  "@
        + choices_text(choices_of(cfg, a).len());
    if a.description.len() == 0 {
        line
    } else {
        line + "  "@ + a.description
    }
}

/// The first `n` lines of the agents, after their heading.
pub open spec fn agent_lines(cfg: ConfigView, width: int, start_width: int, n: int) -> Seq<char>
    decreases n,
{
    if n <= 0 {
        "Agents:\n"@
    } else {
        let p = pairs_of(cfg.agents)[n - 1];
        agent_lines(cfg, width, start_width, n - 1) + agent_line(
            cfg,
            p.0,
            p.1,
            width,
            start_width,
        ) + "\n"@
    }
}

/// The listing of the agents.
pub open spec fn agents_text(cfg: ConfigView, width: int, start_width: int) -> Seq<char> {
    if pairs_of(cfg.agents).len() == 0 {
        "No agents configured. Run `iota config init` to write a starter config.\n"@
    } else {
        agent_lines(cfg, width, start_width, pairs_of(cfg.agents).len() as int)
    }
}

impl AgentConfig {
    /// The model a run of this agent starts on.
    pub fn start(&self) -> (r: Option<&ModelRef>)
        ensures
            match r {
                Some(m) => start_of(self@) == Some(m@),
                None => start_of(self@) is None,
            },
    {
        if self.models.len() == 0 || self.models[0].is_wildcard() {
            None
        } else {
            Some(&self.models[0])
        }
    }
}

impl Config {
    /// What an agent chooses from, in declaration order.
    pub fn choices_of(&self, agent: &AgentConfig) -> (r: Vec<ModelRef>)
        ensures
            refs(r@) == choices_of(self@, agent@),
    {
        if agent.models.len() > 0 {
            return crate::config::model::copy_refs(&agent.models);
        }
        let n: usize = self.models.len();
        let ghost pairs = self.models.pairs();
        let mut r: Vec<ModelRef> = Vec::new();
        for i in 0..n
            invariant
                n == pairs.len(),
                pairs == self.models.pairs(),
                r@.len() == i,
                forall|k: int| 0 <= k < i ==> (#[trigger] r@[k])@ == RefView::Entry(pairs[k].0),
        {
            r.push(ModelRef::Entry(self.models.key_at(i).clone()));
        }
        assert(refs(r@) =~= choices_of(self@, agent@));
        r
    }
}

/// The model column of each agent, in name order.
pub fn agent_starts(cfg: &Config) -> (r: Vec<String>)
    ensures
        strs(r@) == Seq::new(
            pairs_of(cfg@.agents).len(),
            |i: int| start_text(pairs_of(cfg@.agents)[i].1),
        ),
{
    let n: usize = cfg.agents.len();
    let ghost pairs = cfg.agents.pairs();
    let mut r: Vec<String> = Vec::new();
    for i in 0..n
        invariant
            n == pairs.len(),
            pairs == cfg.agents.pairs(),
            r@.len() == i,
            forall|k: int| 0 <= k < i ==> (#[trigger] r@[k])@ == start_text(pairs[k].1),
    {
        r.push(start_label(cfg.agents.value_at(i)));
    }
    assert(strs(r@) =~= Seq::new(
        pairs_of(cfg@.agents).len(),
        |i: int| start_text(pairs_of(cfg@.agents)[i].1),
    ));
    r
}

/// The model column of an agent.
fn start_label(a: &AgentConfig) -> (r: String)
    ensures
        r@ == start_text(a@),
{
    match a.start() {
        Some(m) => m.to_text(),
        None => own(PICKER),
    }
}

/// One line of the agents.
fn agent_row(cfg: &Config, name: &str, a: &AgentConfig, width: usize, start_width: usize) -> (r:
    String)
    ensures
        r@ == agent_line(cfg@, name@, a@, width as int, start_width as int),
{
    let choices: Vec<ModelRef> = cfg.choices_of(a);
    assert(refs(choices@).len() == choices@.len());
    let mut line: String = own("  ");
    pad(&mut line, name, width);
    line.append("  ");
    pad(&mut line, start_label(a).as_str(), start_width);
    line.append("  ");
    if choices.len() == 1 {
        line.append("1 choice");
    } else {
        let mut count: String = decimal(choices.len() as u64);
        count.append(" choices");
        line.append(count.as_str());
    }
    if !a.description.as_str().is_empty() {
        line.append("  ");
        line.append(a.description.as_str());
    }
    line
}

/// What a run may name, with the model each one starts on, the size of its choices and the description the
/// entry documents itself with. The widths are those of the columns of names and of models.
pub fn list_agents(cfg: &Config, width: usize, start_width: usize) -> (r: String)
    ensures
        r@ == agents_text(cfg@, width as int, start_width as int),
{
    let n: usize = cfg.agents.len();
    let ghost pairs = cfg.agents.pairs();
    if n == 0 {
        return own("No agents configured. Run `iota config init` to write a starter config.\n");
    }
    let mut out: String = own("Agents:\n");
    for i in 0..n
        invariant
            n == pairs.len(),
            pairs == cfg.agents.pairs(),
            pairs == pairs_of(cfg@.agents),
            out@ == agent_lines(cfg@, width as int, start_width as int, i as int),
    {
        let row: String = agent_row(
            cfg,
            cfg.agents.key_at(i).as_str(),
            cfg.agents.value_at(i),
            width,
            start_width,
        );
        out.append(row.as_str());
        out.append("\n");
    }
    out
}

// ---------------------------------------------------------------- models

/// The pair an entry stands for, `provider:id`.
pub open spec fn pair_text(name: Seq<char>, m: ModelView) -> Seq<char> {
    or_else(m.provider, name) + ":"@ + m.id
}

/// The first `n` lines of the models, after their heading.
pub open spec fn model_lines(
    pairs: Seq<(Seq<char>, ModelView)>,
    width: int,
    n: int,
) -> Seq<char>
    decreases n,
{
    if n <= 0 {
        "Models:\n"@
    } else {
        let p = pairs[n - 1];
        model_lines(pairs, width, n - 1) + "  "@ + padded(p.0, width) + "  "@ + pair_text(p.0, p.1)
            + "\n"@
    }
}

/// The listing of the models.
pub open spec fn models_text(cfg: ConfigView, width: int) -> Seq<char> {
    if pairs_of(cfg.models).len() == 0 {
        "No models configured. Add a `models:` entry (see `iota config path`).\n"@
    } else {
        model_lines(pairs_of(cfg.models), width, pairs_of(cfg.models).len() as int)
    }
}

/// The pair an entry stands for.
fn pair_label(name: &str, m: &ModelConfig) -> (r: String)
    ensures
        r@ == pair_text(name@, m@),
{
    let mut r: String = own(m.provider_or(name));
    r.append(":");
    r.append(m.id.as_str());
    r
}

/// The `models:` entries and the endpoint each one rides on.
pub fn list_models(cfg: &Config, width: usize) -> (r: String)
    ensures
        r@ == models_text(cfg@, width as int),
{
    let n: usize = cfg.models.len();
    let ghost pairs = cfg.models.pairs();
    if n == 0 {
        return own("No models configured. Add a `models:` entry (see `iota config path`).\n");
    }
    let mut out: String = own("Models:\n");
    for i in 0..n
        invariant
            n == pairs.len(),
            pairs == cfg.models.pairs(),
            out@ == model_lines(pairs, width as int, i as int),
    {
        let name: &String = cfg.models.key_at(i);
        out.append("  ");
        pad(&mut out, name.as_str(), width);
        out.append("  ");
        out.append(pair_label(name.as_str(), cfg.models.value_at(i)).as_str());
        out.append("\n");
    }
    out
}

// ---------------------------------------------------------------- the models of one agent

/// One choice of an agent: an entry with the pair it stands for, an inline pair as written, a wildcard with
/// what it means.
pub open spec fn choice_text(cfg: ConfigView, r: RefView) -> Seq<char> {
    match r {
        RefView::Entry(name) => if cfg.models.contains_key(name) {
            name + " ("@ + pair_text(name, cfg.models[name]) + ")"@
        } else {
            name
        },
        RefView::Inline(_, _) => ref_text(r),
        RefView::All(provider) => provider + ":* (every model "@ + provider + " lists)"@,
    }
}

/// Whether a choice names the very model a run starts on; a wildcard names none.
pub open spec fn names_start(cfg: ConfigView, r: RefView, v: ResolvedView) -> bool {
    !(r is All) && ref_covers(cfg, r, v.provider_name, v.model.id)
}

/// One line of the choices.
pub open spec fn choice_row(cfg: ConfigView, r: RefView, v: ResolvedView) -> Seq<char> {
    let mark = if start_of(v.agent) is Some && names_start(cfg, r, v) {
        "* "@
    } else {
        "  "@
    };
    mark + choice_text(cfg, r) + "\n"@
}

/// The first `n` lines of the choices, after `head`.
pub open spec fn choice_rows(
    head: Seq<char>,
    cfg: ConfigView,
    choices: Seq<RefView>,
    v: ResolvedView,
    n: int,
) -> Seq<char>
    decreases n,
{
    if n <= 0 {
        head
    } else {
        choice_rows(head, cfg, choices, v, n - 1) + choice_row(cfg, choices[n - 1], v)
    }
}

/// The listing of the choices of an agent, with a mark on the model a run starts on. A start that no choice
/// names is a row of its own on top.
pub open spec fn agent_models_text(cfg: ConfigView, name: Seq<char>, v: ResolvedView) -> Seq<char> {
    let choices = choices_of(cfg, v.agent);
    let named = exists|i: int| 0 <= i < choices.len() && #[trigger] names_start(cfg, choices[i], v);
    let heading = "Models for agent "@ + name + ":\n"@;
    let head = match start_of(v.agent) {
        Some(start) => if named {
            heading
        } else {
            heading + "* "@ + choice_text(cfg, start) + "\n"@
        },
        None => heading,
    };
    choice_rows(head, cfg, choices, v, choices.len() as int)
}

/// One choice of an agent.
pub fn choice_line(cfg: &Config, r: &ModelRef) -> (t: String)
    ensures
        t@ == choice_text(cfg@, r@),
{
    match r {
        ModelRef::Entry(entry) => match cfg.models.get(entry.as_str()) {
            Some(m) => {
                let mut t: String = entry.clone();
                t.append(" (");
                t.append(pair_label(entry.as_str(), m).as_str());
                t.append(")");
                t
            },
            None => entry.clone(),
        },
        ModelRef::Inline { .. } => r.to_text(),
        ModelRef::All { provider } => {
            let mut t: String = provider.clone();
            t.append(":* (every model ");
            t.append(provider.as_str());
            t.append(" lists)");
            t
        },
    }
}

/// Whether a choice names the very model a run starts on.
fn is_start(cfg: &Config, r: &ModelRef, v: &Resolved) -> (b: bool)
    ensures
        b == names_start(cfg@, r@, v@),
{
    !r.is_wildcard() && cfg.ref_covers(r, v.provider_name.as_str(), v.model.id.as_str())
}

/// The choices of an agent in declaration order, with a mark on the model a run starts on.
pub fn list_agent_models(cfg: &Config, name: &str) -> (r: Result<String, ArgsError>)
    ensures
        match resolution(cfg@, name@) {
            Some(v) => r matches Ok(t) && t@ == agent_models_text(cfg@, name@, v),
            None => r matches Err(ArgsError::UnknownAgent { name: n, agents }) && n@ == name@
                && strs(agents@) == Seq::new(
                pairs_of(cfg@.agents).len(),
                |i: int| pairs_of(cfg@.agents)[i].0,
            ),
        },
{
    let v: Resolved = match resolve_agent(cfg, name) {
        Ok(v) => v,
        Err(e) => return Err(e),
    };
    let choices: Vec<ModelRef> = cfg.choices_of(&v.agent);
    let ghost all = refs(choices@);
    let mut named: bool = false;
    for i in 0..choices.len()
        invariant
            all == refs(choices@),
            named == exists|k: int| 0 <= k < i && #[trigger] names_start(cfg@, all[k], v@),
    {
        assert(all[i as int] == choices@[i as int]@);
        if is_start(cfg, &choices[i], &v) {
            named = true;
        }
    }
    let mut out: String = own("Models for agent ");
    out.append(name);
    out.append(":\n");
    let start: Option<&ModelRef> = v.agent.start();
    if let Some(s) = start {
        if !named {
            out.append("* ");
            out.append(choice_line(cfg, s).as_str());
            out.append("\n");
        }
    }
    let ghost head = out@;
    for i in 0..choices.len()
        invariant
            all == refs(choices@),
            start is Some == start_of(v@.agent) is Some,
            out@ == choice_rows(head, cfg@, all, v@, i as int),
    {
        assert(all[i as int] == choices@[i as int]@);
        let mut row: String = own(
            if start.is_some() && is_start(cfg, &choices[i], &v) {
                "* "
            } else {
                "  "
            },
        );
        row.append(choice_line(cfg, &choices[i]).as_str());
        row.append("\n");
        out.append(row.as_str());
    }
    Ok(out)
}

// ---------------------------------------------------------------- providers

/// Where the key of a provider comes from, in words.
pub open spec fn key_text(k: KeyView) -> Seq<char> {
    match k {
        KeyView::Env(var, _) => "key: "@ + var,
        KeyView::Config(_) => "key: config"@,
        KeyView::Missing(var) => "no key: set "@ + var,
    }
}

/// Where the key of a provider comes from, in words — the precedence a run applies.
pub fn key_source(key: &ApiKey) -> (r: String)
    ensures
        r@ == key_text(key@),
{
    match key {
        ApiKey::Env { var, .. } => {
            let mut r: String = own("key: ");
            r.append(var.as_str());
            r
        },
        ApiKey::Config(_) => own("key: config"),
        ApiKey::Missing { var } => {
            let mut r: String = own("no key: set ");
            r.append(var.as_str());
            r
        },
    }
}

/// A provider with its type when that is not its name, and its URL when it has one.
pub open spec fn provider_text(name: Seq<char>, raw_type: Seq<char>, url: Seq<char>) -> Seq<char> {
    match (raw_type != name, url.len() > 0) {
        (false, false) => name,
        (true, false) => name + " (type: "@ + raw_type + ")"@,
        (false, true) => name + " (url: "@ + url + ")"@,
        (true, true) => name + " (type: "@ + raw_type + ", url: "@ + url + ")"@,
    }
}

/// One line of the providers: the name alone when it IS the type, else with the type, plus the base URL when
/// the entry overrides it.
pub fn provider_line(name: &str, raw_type: &str, provider_cfg: &ProviderConfig) -> (r: String)
    ensures
        r@ == provider_text(name@, raw_type@, provider_cfg@.url),
{
    let mut r: String = own(name);
    let typed = !same(raw_type, name);
    let placed = !provider_cfg.url.as_str().is_empty();
    if typed && placed {
        r.append(" (type: ");
        r.append(raw_type);
        r.append(", url: ");
        r.append(provider_cfg.url.as_str());
        r.append(")");
    } else if typed {
        r.append(" (type: ");
        r.append(raw_type);
        r.append(")");
    } else if placed {
        r.append(" (url: ");
        r.append(provider_cfg.url.as_str());
        r.append(")");
    }
    r
}

/// One line of the providers, with where the key comes from.
pub open spec fn provider_row(
    cfg: ConfigView,
    name: Seq<char>,
    catalog: Catalog,
    env: EnvView,
) -> Seq<char> {
    let kind = endpoint_kind(cfg, name);
    let entry = endpoint_entry(cfg, name);
    "  "@ + provider_text(name, kind, entry.url) + "  ["@ + key_text(
        key_from(catalog.key_variable(kind), entry, env),
    ) + "]\n"@
}

/// The first `n` lines of the providers, after their heading.
pub open spec fn provider_rows(cfg: ConfigView, catalog: Catalog, env: EnvView, n: int) -> Seq<char>
    decreases n,
{
    if n <= 0 {
        "Providers:\n"@
    } else {
        provider_rows(cfg, catalog, env, n - 1) + provider_row(
            cfg,
            pairs_of(cfg.providers)[n - 1].0,
            catalog,
            env,
        )
    }
}

/// The listing of the providers.
pub open spec fn providers_text(cfg: ConfigView, catalog: Catalog, env: EnvView) -> Seq<char> {
    if pairs_of(cfg.providers).len() == 0 {
        "No providers configured. Run `iota config init` to write a starter config.\n"@
    } else {
        provider_rows(cfg, catalog, env, pairs_of(cfg.providers).len() as int)
    }
}

/// The endpoints, with where each one's key comes from — the question a failing run actually asks.
pub fn list_providers(cfg: &Config, catalog: &Catalog, env: &Env) -> (r: String)
    ensures
        r@ == providers_text(cfg@, *catalog, env@),
{
    let n: usize = cfg.providers.len();
    let ghost pairs = cfg.providers.pairs();
    if n == 0 {
        return own("No providers configured. Run `iota config init` to write a starter config.\n");
    }
    let mut out: String = own("Providers:\n");
    for i in 0..n
        invariant
            n == pairs.len(),
            pairs == cfg.providers.pairs(),
            pairs == pairs_of(cfg@.providers),
            out@ == provider_rows(cfg@, *catalog, env@, i as int),
    {
        let name: &String = cfg.providers.key_at(i);
        let endpoint: Endpoint = cfg.provider(name.as_str());
        let mut row: String = own("  ");
        row.append(
            provider_line(name.as_str(), endpoint.kind.as_str(), &endpoint.config).as_str(),
        );
        row.append("  [");
        row.append(key_source(&endpoint.api_key(catalog, env)).as_str());
        row.append("]\n");
        out.append(row.as_str());
    }
    out
}

// ---------------------------------------------------------------- sessions

/// The first `n` lines of the sessions, after their heading.
pub open spec fn session_lines(sessions: Seq<(String, String)>, width: int, n: int) -> Seq<char>
    decreases n,
{
    if n <= 0 {
        "Sessions:\n"@
    } else {
        session_lines(sessions, width, n - 1) + "  "@ + padded(sessions[n - 1].0@, width) + "  "@
            + sessions[n - 1].1@ + "\n"@
    }
}

/// The saved sessions, each with its id and its label, in the order given.
pub fn list_sessions(sessions: &Vec<(String, String)>, width: usize) -> (r: String)
    ensures
        r@ == if sessions@.len() == 0 {
            "No saved sessions.\n"@
        } else {
            session_lines(sessions@, width as int, sessions@.len() as int)
        },
{
    if sessions.len() == 0 {
        return own("No saved sessions.\n");
    }
    let mut out: String = own("Sessions:\n");
    for i in 0..sessions.len()
        invariant
            out@ == session_lines(sessions@, width as int, i as int),
    {
        out.append("  ");
        pad(&mut out, sessions[i].0.as_str(), width);
        out.append("  ");
        out.append(sessions[i].1.as_str());
        out.append("\n");
    }
    out
}

// ---------------------------------------------------------------- the command

/// The widths of the columns.
pub struct Widths {
    /// The names of the agents.
    pub agents: usize,
    /// The models they start on.
    pub starts: usize,
    /// The names of the models.
    pub models: usize,
    /// The ids of the sessions.
    pub sessions: usize,
}

/// `iota list [what] [<agent>]`. `sessions` are the saved ones, newest first, or why they could not be listed.
pub fn run_list(
    cmd: &ListCmd,
    cfg: &Config,
    catalog: &Catalog,
    env: &Env,
    sessions: &Result<Vec<(String, String)>, String>,
    w: &Widths,
    io: &mut Streams,
) -> (r: Result<(), CliError>)
    ensures
        final(io).stderr == old(io).stderr,
        r is Err ==> final(io).stdout == old(io).stdout,
        ({
            let what = what_of(*cmd);
            let printed = |t: Seq<char>| r is Ok && final(io).stdout@ == old(io).stdout@ + t;
            if cmd.agent is Some && what != ListWhat::Models {
                r matches Err(CliError::Args(ArgsError::ListTakesNoName(x))) && x@ == what_word(
                    what,
                )
            } else {
                match what {
                    ListWhat::Agents => printed(
                        agents_text(cfg@, w.agents as int, w.starts as int),
                    ),
                    ListWhat::Models => match cmd.agent {
                        None => printed(models_text(cfg@, w.models as int)),
                        Some(name) => match resolution(cfg@, name@) {
                            Some(v) => printed(agent_models_text(cfg@, name@, v)),
                            None => r matches Err(
                                CliError::Args(ArgsError::UnknownAgent { name: n, agents }),
                            ) && n@ == name@ && strs(agents@) == Seq::new(
                                pairs_of(cfg@.agents).len(),
                                |i: int| pairs_of(cfg@.agents)[i].0,
                            ),
                        },
                    },
                    ListWhat::Providers => printed(providers_text(cfg@, *catalog, env@)),
                    ListWhat::Sessions => match *sessions {
                        Err(e) => r matches Err(CliError::Setup(SetupError::ListSessions(m))) && m@
                            == e@,
                        Ok(v) => printed(
                            if v@.len() == 0 {
                                "No saved sessions.\n"@
                            } else {
                                session_lines(v@, w.sessions as int, v@.len() as int)
                            },
                        ),
                    },
                }
            }
        }),
{
    let what: ListWhat = match list_target(cmd) {
        Ok(what) => what,
        Err(e) => return Err(CliError::Args(e)),
    };
    let text: String = match what {
        ListWhat::Agents => list_agents(cfg, w.agents, w.starts),
        ListWhat::Models => match &cmd.agent {
            None => list_models(cfg, w.models),
            Some(name) => match list_agent_models(cfg, name.as_str()) {
                Ok(t) => t,
                Err(e) => return Err(CliError::Args(e)),
            },
        },
        ListWhat::Providers => list_providers(cfg, catalog, env),
        ListWhat::Sessions => match sessions {
            Err(e) => return Err(CliError::Setup(SetupError::ListSessions(e.clone()))),
            Ok(v) => list_sessions(v, w.sessions),
        },
    };
    io.stdout.append(text.as_str());
    Ok(())
}

} // verus!
