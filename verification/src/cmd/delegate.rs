//! The `delegate` toolset: `tools.delegate` names agents that ARE provider entries, every agent is checked at
//! startup in name order, and each delegation builds its child afresh.

use vstd::prelude::*;
use vstd::string::*;

use crate::app::env::{Env, EnvView};
use crate::chat::delegator::{AgentInfo, ChatDelegator, Child, InfoView};
use crate::chat::turns::turn_cap;
use crate::config::error::{error_text, ConfigErrorView};
use crate::config::flat::{entry_for, type_for, FlatConfig, FlatConfigView, FlatView};
use crate::config::migrate::LegacyProviderEntry;
use crate::config::provider::{key_from, key_value, ApiKey, Endpoint, ProviderConfig, ProviderView};
use crate::double::Double;
use crate::headless::AgentOptions;
use crate::map::{pairs_of, Duplicate, StrMap};
use crate::provider::{
    effort_named, kind_named, no_effort_has_no_name, Catalog, Effort, ProviderKind,
};
use crate::text::{debug_text, join, joined, lossy_text, own, quoted, strs};
use crate::yaml::{Node, Yaml};

verus! {

/// The toolset that delegates.
pub const DELEGATE_SET: &'static str = "delegate";

/// `tools: delegate:`.
pub struct DelegateConfig {
    /// `agents:` — agent name → provider reference.
    pub agents: StrMap<AgentRef>,
    /// `max_turns:` — the optional cap of each child; one that is not positive means none.
    pub max_turns: i64,
}

/// A provider name, optionally with the one thing the provider entry cannot carry: what the agent is FOR.
pub enum AgentRef {
    /// `critic: openai` — the provider name alone.
    Name(String),
    /// `critic: {provider: openai, description: …}`.
    Full {
        /// The provider name (`""` when absent).
        provider: String,
        /// What this agent is for.
        description: String,
    },
}

/// What an [`AgentRef`] says.
pub struct AgentRefView {
    pub provider: Seq<char>,
    pub description: Seq<char>,
}

impl View for AgentRef {
    type V = AgentRefView;

    open spec fn view(&self) -> AgentRefView {
        match *self {
            AgentRef::Name(p) => AgentRefView { provider: p@, description: Seq::empty() },
            AgentRef::Full { provider, description } => AgentRefView {
                provider: provider@,
                description: description@,
            },
        }
    }
}

impl AgentRef {
    /// The provider name.
    pub fn provider(&self) -> (r: &str)
        ensures
            r@ == self@.provider,
    {
        match self {
            AgentRef::Name(s) => s.as_str(),
            AgentRef::Full { provider, .. } => provider.as_str(),
        }
    }

    /// The description; a bare name has none.
    pub fn description(&self) -> (r: &str)
        ensures
            r@ == self@.description,
    {
        match self {
            AgentRef::Name(_) => {
                proof {
                    reveal_strlit("");
                    assert(""@ =~= Seq::<char>::empty());
                }
                ""
            },
            AgentRef::Full { description, .. } => description.as_str(),
        }
    }
}

// ---------------------------------------------------------------- errors

/// Why `tools.delegate` refused its configuration, or a child could not be built.
pub enum DelegateError {
    /// It is no mapping, or does not decode.
    Config(String),
    /// There are no agents.
    NoAgents,
    /// The agent's reference names no provider.
    NoProvider(String),
    /// The agent's provider entry failed, with the text of the failure.
    Provider(String, String),
    /// The agent's provider entry has no model.
    NoModel(String, String),
    /// The agent's provider entry has an effort that is no level.
    Effort(String, String, String),
    /// The agent's provider entry has a temperature outside its range.
    Temperature(String, String, Double),
    /// The agent's provider entry has a nucleus outside its range.
    TopP(String, String, Double),
    /// The build of the child's toolset complained.
    Toolset(String, String),
    /// A delegation named an agent that is not configured.
    UnknownAgent(String),
    /// The child's key is neither in the environment nor in the config.
    ApiKey(String, String),
}

/// What a [`DelegateError`] says.
pub enum DelegateFault {
    Config(Seq<char>),
    NoAgents,
    NoProvider(Seq<char>),
    Provider(Seq<char>, Seq<char>),
    NoModel(Seq<char>, Seq<char>),
    Effort(Seq<char>, Seq<char>, Seq<char>),
    Temperature(Seq<char>, Seq<char>, Double),
    TopP(Seq<char>, Seq<char>, Double),
    Toolset(Seq<char>, Seq<char>),
    UnknownAgent(Seq<char>),
    ApiKey(Seq<char>, Seq<char>),
}

impl View for DelegateError {
    type V = DelegateFault;

    open spec fn view(&self) -> DelegateFault {
        match *self {
            DelegateError::Config(e) => DelegateFault::Config(e@),
            DelegateError::NoAgents => DelegateFault::NoAgents,
            DelegateError::NoProvider(a) => DelegateFault::NoProvider(a@),
            DelegateError::Provider(a, e) => DelegateFault::Provider(a@, e@),
            DelegateError::NoModel(a, p) => DelegateFault::NoModel(a@, p@),
            DelegateError::Effort(a, p, e) => DelegateFault::Effort(a@, p@, e@),
            DelegateError::Temperature(a, p, d) => DelegateFault::Temperature(a@, p@, d),
            DelegateError::TopP(a, p, d) => DelegateFault::TopP(a@, p@, d),
            DelegateError::Toolset(a, w) => DelegateFault::Toolset(a@, w@),
            DelegateError::UnknownAgent(a) => DelegateFault::UnknownAgent(a@),
            DelegateError::ApiKey(a, v) => DelegateFault::ApiKey(a@, v@),
        }
    }
}

/// `agent "name"` and what follows it.
pub open spec fn of_agent(name: Seq<char>, rest: Seq<char>) -> Seq<char> {
    "agent "@ + debug_text(name) + ": "@ + rest
}

/// `provider "name"` and what follows it.
pub open spec fn of_provider(name: Seq<char>, rest: Seq<char>) -> Seq<char> {
    "provider "@ + debug_text(name) + rest
}

/// The text of a fault; `number` is how its number prints, for one that carries one.
pub open spec fn fault_text(f: DelegateFault, number: Seq<char>) -> Seq<char> {
    match f {
        DelegateFault::Config(e) => "config must be a mapping (agents, max_turns): "@ + e,
        DelegateFault::NoAgents => "no agents configured (add `agents:` mapping agent names to provider names)"@,
        DelegateFault::NoProvider(a) => of_agent(a, "no provider named"@),
        DelegateFault::Provider(a, e) => of_agent(a, e),
        DelegateFault::NoModel(a, p) => of_agent(
            a,
            of_provider(p, " has no `model:` (a delegated agent cannot be asked to pick one)"@),
        ),
        DelegateFault::Effort(a, p, e) => of_agent(
            a,
            of_provider(p, " has effort "@ + debug_text(e) + ": want low|medium|high|xhigh|max"@),
        ),
        DelegateFault::Temperature(a, p, _) => of_agent(
            a,
            of_provider(p, " has temperature "@ + number + ": want 0.0-2.0"@),
        ),
        DelegateFault::TopP(a, p, _) => of_agent(
            a,
            of_provider(p, " has top_p "@ + number + ": want 0.0-1.0"@),
        ),
        DelegateFault::Toolset(a, w) => of_agent(a, w),
        DelegateFault::UnknownAgent(a) => "unknown agent "@ + debug_text(a),
        DelegateFault::ApiKey(a, v) => of_agent(
            a,
            "API key is required (set "@ + v + " or `key:`)"@,
        ),
    }
}

/// `agent "name"` and what follows it.
fn agent_text(name: &str, rest: &str) -> (r: String)
    ensures
        r@ == of_agent(name@, rest@),
{
    let mut r: String = own("agent ");
    r.append(quoted(name).as_str());
    r.append(": ");
    r.append(rest);
    r
}

/// `agent "name": provider "name"` and what follows it.
fn provider_text(agent: &str, provider: &str, rest: &str) -> (r: String)
    ensures
        r@ == of_agent(agent@, of_provider(provider@, rest@)),
{
    let mut r: String = own("provider ");
    r.append(quoted(provider).as_str());
    r.append(rest);
    agent_text(agent, r.as_str())
}

/// Three texts, one after the other.
fn three(a: &str, b: &str, c: &str) -> (r: String)
    ensures
        r@ == a@ + b@ + c@,
{
    let mut r: String = own(a);
    r.append(b);
    r.append(c);
    r
}

impl DelegateError {
    /// The text of the error; `number` is how its number prints, for an error that carries one.
    pub fn message(&self, number: &str) -> (r: String)
        ensures
            r@ == fault_text(self@, number@),
    {
        match self {
            DelegateError::Config(e) => {
                let mut r: String = own("config must be a mapping (agents, max_turns): ");
                r.append(e.as_str());
                r
            },
            DelegateError::NoAgents => own(
                "no agents configured (add `agents:` mapping agent names to provider names)",
            ),
            DelegateError::NoProvider(a) => agent_text(a.as_str(), "no provider named"),
            DelegateError::Provider(a, e) => agent_text(a.as_str(), e.as_str()),
            DelegateError::NoModel(a, p) => provider_text(
                a.as_str(),
                p.as_str(),
                " has no `model:` (a delegated agent cannot be asked to pick one)",
            ),
            DelegateError::Effort(a, p, e) => provider_text(
                a.as_str(),
                p.as_str(),
                three(
                    " has effort ",
                    quoted(e.as_str()).as_str(),
                    ": want low|medium|high|xhigh|max",
                ).as_str(),
            ),
            DelegateError::Temperature(a, p, _) => provider_text(
                a.as_str(),
                p.as_str(),
                three(" has temperature ", number, ": want 0.0-2.0").as_str(),
            ),
            DelegateError::TopP(a, p, _) => provider_text(
                a.as_str(),
                p.as_str(),
                three(" has top_p ", number, ": want 0.0-1.0").as_str(),
            ),
            DelegateError::Toolset(a, w) => agent_text(a.as_str(), w.as_str()),
            DelegateError::UnknownAgent(a) => {
                let mut r: String = own("unknown agent ");
                r.append(quoted(a.as_str()).as_str());
                r
            },
            DelegateError::ApiKey(a, v) => agent_text(
                a.as_str(),
                three("API key is required (set ", v.as_str(), " or `key:`)").as_str(),
            ),
        }
    }
}

// ---------------------------------------------------------------- the checks

/// The toolset of a child: its parent's without the one that delegates. A child that could delegate would do so
/// without end.
pub fn child_tools(raw: &StrMap<Yaml>) -> (r: StrMap<Yaml>)
    ensures
        r@ == raw@.remove(DELEGATE_SET@),
{
    let mut r: StrMap<Yaml> = raw.duplicate();
    let _ = r.remove(DELEGATE_SET);
    r
}

/// One agent that passed the checks: what its child is built from, every time.
pub struct ChildPlan {
    /// The provider type.
    pub provider_type: String,
    /// The provider entry that the agent IS.
    pub entry: LegacyProviderEntry,
    /// The child's toolset.
    pub tools: StrMap<Yaml>,
}

/// What a [`ChildPlan`] says.
pub struct PlanView {
    pub provider_type: Seq<char>,
    pub entry: FlatView,
    pub tools: Map<Seq<char>, Node>,
}

impl View for ChildPlan {
    type V = PlanView;

    open spec fn view(&self) -> PlanView {
        PlanView {
            provider_type: self.provider_type@,
            entry: self.entry@,
            tools: self.tools@,
        }
    }
}

/// The text for a provider that is neither configured nor built in.
pub open spec fn unknown_provider(name: Seq<char>) -> Seq<char> {
    "unknown provider "@ + debug_text(name)
}

/// The checks of one agent, up to its toolset: it names a provider that exists, and its entry has a model and
/// values in their ranges — a child can be asked nothing, so whatever only the API could reject is refused here.
pub open spec fn agent_case(cfg: FlatConfigView, name: Seq<char>, p: Seq<char>) -> Result<
    PlanView,
    DelegateFault,
> {
    let entry = entry_for(cfg, p);
    if p.len() == 0 {
        Err(DelegateFault::NoProvider(name))
    } else if !cfg.providers.contains_key(p) && kind_named(p) is None {
        Err(DelegateFault::Provider(name, unknown_provider(p)))
    } else if entry.model.len() == 0 {
        Err(DelegateFault::NoModel(name, p))
    } else if entry.effort.len() > 0 && effort_named(entry.effort) is None {
        Err(DelegateFault::Effort(name, p, entry.effort))
    } else if entry.temperature is Some && !entry.temperature->0.from_zero_to_pow2(1) {
        Err(DelegateFault::Temperature(name, p, entry.temperature->0))
    } else if entry.top_p is Some && !entry.top_p->0.from_zero_to_pow2(0) {
        Err(DelegateFault::TopP(name, p, entry.top_p->0))
    } else {
        Ok(
            PlanView {
                provider_type: type_for(cfg, p),
                entry,
                tools: entry.tools.remove(DELEGATE_SET@),
            },
        )
    }
}

/// The checks of one agent, up to its toolset.
pub fn check_agent(cfg: &FlatConfig, name: &str, agent: &AgentRef) -> (r: Result<
    ChildPlan,
    DelegateError,
>)
    ensures
        match agent_case(cfg@, name@, agent@.provider) {
            Ok(v) => r matches Ok(plan) && plan@ == v,
            Err(f) => r matches Err(e) && e@ == f,
        },
{
    let p: &str = agent.provider();
    if p.is_empty() {
        return Err(DelegateError::NoProvider(own(name)));
    }
    if !cfg.providers.contains_key(p) && !ProviderKind::is_known(p) {
        let mut text: String = own("unknown provider ");
        text.append(quoted(p).as_str());
        return Err(DelegateError::Provider(own(name), text));
    }
    let (provider_type, entry) = cfg.get(p);
    if entry.model.as_str().is_empty() {
        return Err(DelegateError::NoModel(own(name), own(p)));
    }
    if entry.effort().is_err() {
        return Err(DelegateError::Effort(own(name), own(p), entry.effort));
    }
    if let Some(t) = entry.temperature {
        if !t.in_double_range() {
            return Err(DelegateError::Temperature(own(name), own(p), t));
        }
    }
    if let Some(t) = entry.top_p {
        if !t.in_unit_range() {
            return Err(DelegateError::TopP(own(name), own(p), t));
        }
    }
    let tools: StrMap<Yaml> = child_tools(&entry.tools);
    Ok(ChildPlan { provider_type, entry, tools })
}

// ---------------------------------------------------------------- the toolsets

/// What the build of a toolset gave: each tool with whether it may run beside others, and the complaints.
pub struct ChildTools {
    pub tools: Vec<(String, bool)>,
    pub warnings: Vec<String>,
}

/// Whether every tool may run beside others: none of them writes, asks or opens anything.
pub open spec fn all_parallel(tools: Seq<(String, bool)>) -> bool {
    forall|i: int| 0 <= i < tools.len() ==> (#[trigger] tools[i]).1
}

/// Whether every tool may run beside others.
pub fn read_only_registry(built: &ChildTools) -> (r: bool)
    ensures
        r == all_parallel(built.tools@),
{
    for i in 0..built.tools.len()
        invariant
            forall|k: int| 0 <= k < i ==> (#[trigger] built.tools@[k]).1,
    {
        if !built.tools[i].1 {
            return false;
        }
    }
    true
}

/// Whether `out` is what `build` makes of a toolset, with the agent set beside it in agent mode.
pub open spec fn made_by<B: Fn(&StrMap<Yaml>, bool) -> ChildTools>(
    build: B,
    tools: Map<Seq<char>, Node>,
    agent_mode: bool,
    out: ChildTools,
) -> bool {
    exists|t: StrMap<Yaml>| t@ == tools && #[trigger] build.ensures((&t, agent_mode), out)
}

/// Builds the toolset of a child through `build`, which gets the toolset and whether to enable the agent set
/// beside it. A child has nothing to delegate with and nobody to ask.
pub fn build_child_tools<B: Fn(&StrMap<Yaml>, bool) -> ChildTools>(
    tools: &StrMap<Yaml>,
    agent_mode: bool,
    build: &B,
) -> (r: ChildTools)
    requires
        build.requires((tools, agent_mode)),
    ensures
        made_by(*build, tools@, agent_mode, r),
{
    build(tools, agent_mode)
}

// ---------------------------------------------------------------- the delegator

/// The provider of the agent at `i`.
pub open spec fn provider_at(pairs: Seq<(Seq<char>, AgentRefView)>, i: int) -> Seq<char> {
    pairs[i].1.provider
}

/// What the first `n` agents come to, given what the build of each toolset gave: what is known of each, or the
/// first thing that is wrong.
pub open spec fn agents_case(
    cfg: FlatConfigView,
    pairs: Seq<(Seq<char>, AgentRefView)>,
    built: Seq<ChildTools>,
    n: int,
) -> Result<Map<Seq<char>, InfoView>, DelegateFault>
    decreases n,
{
    if n <= 0 {
        Ok(Map::empty())
    } else {
        let (name, agent) = pairs[n - 1];
        match agents_case(cfg, pairs, built, n - 1) {
            Err(f) => Err(f),
            Ok(known) => match agent_case(cfg, name, agent.provider) {
                Err(f) => Err(f),
                Ok(_) => if built[n - 1].warnings@.len() > 0 {
                    Err(
                        DelegateFault::Toolset(
                            name,
                            joined(strs(built[n - 1].warnings@), "; "@),
                        ),
                    )
                } else {
                    Ok(
                        known.insert(
                            name,
                            InfoView {
                                description: agent.description,
                                read_only: all_parallel(built[n - 1].tools@),
                            },
                        ),
                    )
                },
            },
        }
    }
}

/// The plans of the first `n` agents.
pub open spec fn plans_case(
    cfg: FlatConfigView,
    pairs: Seq<(Seq<char>, AgentRefView)>,
    n: int,
) -> Map<Seq<char>, PlanView>
    decreases n,
{
    if n <= 0 {
        Map::empty()
    } else {
        let (name, agent) = pairs[n - 1];
        plans_case(cfg, pairs, n - 1).insert(
            name,
            agent_case(cfg, name, agent.provider)->Ok_0,
        )
    }
}

/// Whether `out` is what `build` makes of the plan of the agent at `i`.
pub open spec fn made_at<B: Fn(&StrMap<Yaml>, bool) -> ChildTools>(
    build: B,
    cfg: FlatConfigView,
    pairs: Seq<(Seq<char>, AgentRefView)>,
    i: int,
    out: ChildTools,
) -> bool {
    agent_case(cfg, pairs[i].0, pairs[i].1.provider) matches Ok(plan) && made_by(
        build,
        plan.tools,
        plan.entry.agent,
        out,
    )
}

/// Whether some agent's plan has this toolset, with the agent set beside it or not.
pub open spec fn is_planned(
    cfg: FlatConfigView,
    pairs: Seq<(Seq<char>, AgentRefView)>,
    tools: Map<Seq<char>, Node>,
    agent_mode: bool,
) -> bool {
    exists|i: int|
        0 <= i < pairs.len() && (agent_case(
            cfg,
            (#[trigger] pairs[i]).0,
            pairs[i].1.provider,
        ) matches Ok(plan) && plan.tools == tools && plan.entry.agent == agent_mode)
}

/// Whether each toolset that was built is what `build` makes of the plan of its agent. Those of the agents after
/// the first failure were not built.
pub open spec fn all_made_by<B: Fn(&StrMap<Yaml>, bool) -> ChildTools>(
    build: B,
    cfg: FlatConfigView,
    pairs: Seq<(Seq<char>, AgentRefView)>,
    built: Seq<ChildTools>,
) -> bool {
    &&& built.len() <= pairs.len()
    &&& forall|i: int| 0 <= i < built.len() ==> #[trigger] made_at(build, cfg, pairs, i, built[i])
}

/// Whether the building ended where it had to: with the last agent, or with the first thing that is wrong.
pub open spec fn ends_there(
    cfg: FlatConfigView,
    pairs: Seq<(Seq<char>, AgentRefView)>,
    built: Seq<ChildTools>,
) -> bool {
    built.len() < pairs.len() ==> {
        ||| agent_case(
            cfg,
            pairs[built.len() as int].0,
            pairs[built.len() as int].1.provider,
        ) is Err
        ||| built.len() > 0 && built.last().warnings@.len() > 0
    }
}

/// Whether nothing is wrong with any agent.
pub open spec fn all_agents_pass(cfg: FlatConfigView, pairs: Seq<(Seq<char>, AgentRefView)>) -> bool {
    forall|i: int|
        0 <= i < pairs.len() ==> agent_case(
            cfg,
            (#[trigger] pairs[i]).0,
            pairs[i].1.provider,
        ) is Ok
}

/// Whether no toolset that `build` makes of a plan comes with a complaint.
pub open spec fn never_complains<B: Fn(&StrMap<Yaml>, bool) -> ChildTools>(
    build: B,
    cfg: FlatConfigView,
    pairs: Seq<(Seq<char>, AgentRefView)>,
) -> bool {
    forall|t: &StrMap<Yaml>, a: bool, out: ChildTools|
        is_planned(cfg, pairs, t@, a) && #[trigger] build.ensures((t, a), out)
            ==> out.warnings@.len() == 0
}

/// The delegator with everything its children are built from.
pub struct Delegation {
    /// The agents that can be delegated to.
    pub delegator: ChatDelegator,
    /// The plan of each.
    pub plans: StrMap<ChildPlan>,
    /// The cap of each child.
    pub max_turns: Option<u32>,
}

/// A prefix of the toolsets decides what the first agents come to.
proof fn prefix_decides(
    cfg: FlatConfigView,
    pairs: Seq<(Seq<char>, AgentRefView)>,
    built: Seq<ChildTools>,
    more: ChildTools,
    n: int,
)
    requires
        0 <= n <= built.len(),
    ensures
        agents_case(cfg, pairs, built.push(more), n) == agents_case(cfg, pairs, built, n),
    decreases n,
{
    if n > 0 {
        prefix_decides(cfg, pairs, built, more, n - 1);
        assert(built.push(more)[n - 1] == built[n - 1]);
    }
}

/// A failure among the first agents is the failure of all.
proof fn first_failure_stands(
    cfg: FlatConfigView,
    pairs: Seq<(Seq<char>, AgentRefView)>,
    built: Seq<ChildTools>,
    n: int,
    m: int,
)
    requires
        0 <= n <= m,
        agents_case(cfg, pairs, built, n) is Err,
    ensures
        agents_case(cfg, pairs, built, m) == agents_case(cfg, pairs, built, n),
    decreases m,
{
    if n < m {
        first_failure_stands(cfg, pairs, built, n, m - 1);
    }
}

/// One more toolset was built.
proof fn one_more_made<B: Fn(&StrMap<Yaml>, bool) -> ChildTools>(
    build: B,
    cfg: FlatConfigView,
    pairs: Seq<(Seq<char>, AgentRefView)>,
    built: Seq<ChildTools>,
    out: ChildTools,
)
    requires
        all_made_by(build, cfg, pairs, built),
        built.len() < pairs.len(),
        made_at(build, cfg, pairs, built.len() as int, out),
    ensures
        all_made_by(build, cfg, pairs, built.push(out)),
{
    let next = built.push(out);
    assert forall|k: int| 0 <= k < next.len() implies #[trigger] made_at(
        build,
        cfg,
        pairs,
        k,
        next[k],
    ) by {
        if k < built.len() {
            assert(made_at(build, cfg, pairs, k, built[k]));
        }
    }
}

/// Whether a result is what the agents come to.
pub open spec fn is_delegation(
    r: Result<Delegation, DelegateError>,
    cfg: FlatConfigView,
    pairs: Seq<(Seq<char>, AgentRefView)>,
    max_turns: i64,
    built: Seq<ChildTools>,
) -> bool {
    match agents_case(cfg, pairs, built, pairs.len() as int) {
        Err(f) => r matches Err(e) && e@ == f,
        Ok(known) => {
            &&& built.len() == pairs.len()
            &&& r matches Ok(d) && d.delegator.known() == known && d.plans@ == plans_case(
                cfg,
                pairs,
                pairs.len() as int,
            ) && d.max_turns == (if 0 < max_turns <= u32::MAX {
                Some(max_turns as u32)
            } else {
                None
            })
        },
    }
}

/// Checks every agent, in name order, and builds each toolset once, so that a complaint IS the startup error.
/// The first failing agent is the same on every run.
pub fn build_delegator_with_factory<B: Fn(&StrMap<Yaml>, bool) -> ChildTools>(
    cfg: &FlatConfig,
    conf: &DelegateConfig,
    build: &B,
) -> (r: Result<Delegation, DelegateError>)
    requires
        forall|t: &StrMap<Yaml>, a: bool|
            is_planned(cfg@, pairs_of(conf.agents@), t@, a) ==> #[trigger] build.requires((t, a)),
    ensures
        pairs_of(conf.agents@).len() == 0 ==> (r matches Err(e) && e is NoAgents),
        pairs_of(conf.agents@).len() > 0 ==> exists|built: Seq<ChildTools>| #[trigger]
            all_made_by(*build, cfg@, pairs_of(conf.agents@), built) && ends_there(
                cfg@,
                pairs_of(conf.agents@),
                built,
            ) && is_delegation(
                r,
                cfg@,
                pairs_of(conf.agents@),
                conf.max_turns,
                built,
            ),
        pairs_of(conf.agents@).len() > 0 && all_agents_pass(cfg@, pairs_of(conf.agents@))
            && never_complains(*build, cfg@, pairs_of(conf.agents@)) ==> r is Ok,
{
    let n: usize = conf.agents.len();
    let ghost pairs = conf.agents.pairs();
    if n == 0 {
        return Err(DelegateError::NoAgents);
    }
    let max_turns: Option<u32> = turn_cap(conf.max_turns);
    let mut agents: StrMap<AgentInfo> = StrMap::new();
    let mut plans: StrMap<ChildPlan> = StrMap::new();
    let ghost mut built: Seq<ChildTools> = Seq::empty();
    for i in 0..n
        invariant
            n == pairs.len(),
            pairs == conf.agents.pairs(),
            pairs == pairs_of(conf.agents@),
            forall|t: &StrMap<Yaml>, a: bool|
                is_planned(cfg@, pairs, t@, a) ==> #[trigger] build.requires((t, a)),
            built.len() == i,
            all_made_by(*build, cfg@, pairs, built),
            agents_case(cfg@, pairs, built, i as int) == Ok::<
                Map<Seq<char>, InfoView>,
                DelegateFault,
            >(agents@),
            plans@ == plans_case(cfg@, pairs, i as int),
    {
        let name: &String = conf.agents.key_at(i);
        let agent: &AgentRef = conf.agents.value_at(i);
        let plan: ChildPlan = match check_agent(cfg, name.as_str(), agent) {
            Ok(plan) => plan,
            Err(e) => {
                let r: Result<Delegation, DelegateError> = Err(e);
                proof {
                    assert(pairs[i as int] == (name@, agent@));
                    assert(agents_case(cfg@, pairs, built, i + 1) is Err);
                    first_failure_stands(cfg@, pairs, built, i + 1, pairs.len() as int);
                    assert(is_delegation(r, cfg@, pairs, conf.max_turns, built));
                }
                return r;
            },
        };
        assert(pairs[i as int] == (name@, agent@));
        assert(is_planned(cfg@, pairs, plan.tools@, plan.entry.agent));
        let out: ChildTools = build_child_tools(&plan.tools, plan.entry.agent, build);
        proof {
            prefix_decides(cfg@, pairs, built, out, i as int);
            one_more_made(*build, cfg@, pairs, built, out);
            built = built.push(out);
            assert(built[i as int] == out);
        }
        if out.warnings.len() > 0 {
            let r: Result<Delegation, DelegateError> = Err(
                DelegateError::Toolset(name.clone(), join(&out.warnings, "; ")),
            );
            proof {
                assert(built.last() == out);
                assert(made_at(*build, cfg@, pairs, i as int, out));
                assert(agents_case(cfg@, pairs, built, i + 1) is Err);
                first_failure_stands(cfg@, pairs, built, i + 1, pairs.len() as int);
                assert(is_delegation(r, cfg@, pairs, conf.max_turns, built));
            }
            return r;
        }
        agents.insert(
            name.clone(),
            AgentInfo {
                description: own(agent.description()),
                read_only: read_only_registry(&out),
            },
        );
        plans.insert(name.clone(), plan);
    }
    let r: Result<Delegation, DelegateError> = Ok(
        Delegation { delegator: ChatDelegator::new(agents), plans, max_turns },
    );
    assert(is_delegation(r, cfg@, pairs, conf.max_turns, built));
    r
}

/// The delegator alone.
pub fn build_delegator<B: Fn(&StrMap<Yaml>, bool) -> ChildTools>(
    cfg: &FlatConfig,
    conf: &DelegateConfig,
    build: &B,
) -> (r: Result<ChatDelegator, DelegateError>)
    requires
        forall|t: &StrMap<Yaml>, a: bool|
            is_planned(cfg@, pairs_of(conf.agents@), t@, a) ==> #[trigger] build.requires((t, a)),
    ensures
        pairs_of(conf.agents@).len() == 0 ==> (r matches Err(e) && e is NoAgents),
        pairs_of(conf.agents@).len() > 0 ==> exists|built: Seq<ChildTools>| #[trigger]
            all_made_by(*build, cfg@, pairs_of(conf.agents@), built) && ends_there(
                cfg@,
                pairs_of(conf.agents@),
                built,
            ) && match agents_case(
                cfg@,
                pairs_of(conf.agents@),
                built,
                pairs_of(conf.agents@).len() as int,
            ) {
                Err(f) => r matches Err(e) && e@ == f,
                Ok(known) => r matches Ok(d) && d.known() == known,
            },
        pairs_of(conf.agents@).len() > 0 && all_agents_pass(cfg@, pairs_of(conf.agents@))
            && never_complains(*build, cfg@, pairs_of(conf.agents@)) ==> r is Ok,
{
    match build_delegator_with_factory(cfg, conf, build) {
        Ok(d) => Ok(d.delegator),
        Err(e) => Err(e),
    }
}

// ---------------------------------------------------------------- a child

/// What the provider of a child is made with.
pub struct ChildProvider {
    pub kind: ProviderKind,
    pub api_key: String,
    pub base_url: String,
    pub model: String,
    pub temperature: Option<Double>,
    pub effort: Option<Effort>,
    pub top_p: Option<Double>,
}

/// Where the key of a child comes from: the environment outranks `key:`.
pub open spec fn child_key(plan: PlanView, catalog: Catalog, env: EnvView) -> Option<Seq<char>> {
    key_value(
        key_from(
            catalog.key_variable(plan.provider_type),
            ProviderView { kind: plan.entry.kind, key: plan.entry.key, url: plan.entry.url },
            env,
        ),
    )
}

/// What the provider of a child is made with, or why there is none. Image settings are deliberately not among
/// it: a delegation returns text.
pub fn prepare_child(d: &Delegation, name: &str, catalog: &Catalog, env: &Env) -> (r: Result<
    ChildProvider,
    DelegateError,
>)
    ensures
        if !d.plans@.contains_key(name@) {
            r matches Err(e) && e@ == DelegateFault::UnknownAgent(name@)
        } else {
            let plan = d.plans@[name@];
            match child_key(plan, *catalog, env@) {
                None => r matches Err(e) && e@ == DelegateFault::ApiKey(
                    name@,
                    catalog.key_variable(plan.provider_type),
                ),
                Some(key) => match kind_named(plan.provider_type) {
                    None => r matches Err(e) && e@ == DelegateFault::Provider(
                        name@,
                        "unknown provider type "@ + debug_text(plan.provider_type),
                    ),
                    Some(kind) => r matches Ok(c) && c.kind == kind && c.api_key@ == key
                        && c.base_url@ == plan.entry.url && c.model@ == plan.entry.model
                        && c.temperature == plan.entry.temperature && c.top_p == plan.entry.top_p
                        && c.effort == effort_named(plan.entry.effort),
                },
            }
        },
{
    let plan: &ChildPlan = match d.plans.get(name) {
        Some(p) => p,
        None => return Err(DelegateError::UnknownAgent(own(name))),
    };
    let endpoint = Endpoint {
        kind: plan.provider_type.clone(),
        config: ProviderConfig {
            kind: plan.entry.kind.clone(),
            key: plan.entry.key.clone(),
            url: plan.entry.url.clone(),
        },
    };
    let api_key: String = match endpoint.api_key(catalog, env) {
        ApiKey::Env { key, .. } => key,
        ApiKey::Config(key) => key,
        ApiKey::Missing { var } => return Err(DelegateError::ApiKey(own(name), var)),
    };
    let kind: ProviderKind = match ProviderKind::from_name(plan.provider_type.as_str()) {
        Some(kind) => kind,
        None => {
            let mut text: String = own("unknown provider type ");
            text.append(quoted(plan.provider_type.as_str()).as_str());
            return Err(DelegateError::Provider(own(name), text));
        },
    };
    let effort: Option<Effort> = match plan.entry.effort() {
        Ok(e) => e,
        Err(_) => None,
    };
    proof {
        no_effort_has_no_name();
        if plan.entry@.effort.len() == 0 {
            assert(plan.entry@.effort =~= Seq::<char>::empty());
        }
    }
    Ok(
        ChildProvider {
            kind,
            api_key,
            base_url: plan.entry.url.clone(),
            model: plan.entry.model.clone(),
            temperature: plan.entry.temperature,
            effort,
            top_p: plan.entry.top_p,
        },
    )
}

/// What a child runs with beside its provider and its tools, given what reading its system file gave.
pub fn finish_child(
    d: &Delegation,
    name: &str,
    read: Result<Vec<u8>, String>,
    root: &String,
    cwd: &Option<String>,
    home: &Option<String>,
) -> (r: Result<Child, DelegateError>)
    ensures
        if !d.plans@.contains_key(name@) {
            r matches Err(e) && e@ == DelegateFault::UnknownAgent(name@)
        } else {
            let entry = d.plans@[name@].entry;
            let inline = entry.system.len() > 0 || entry.system_file.len() == 0;
            if !inline && read is Err {
                r matches Err(e) && e@ == DelegateFault::Provider(
                    name@,
                    error_text(
                        ConfigErrorView::SystemFile(
                            "open "@ + entry.system_file + ": "@ + read->Err_0@,
                        ),
                    ),
                )
            } else {
                r matches Ok(c) && c.system@ == (if inline {
                    entry.system
                } else {
                    lossy_text(read->Ok_0@)
                }) && c.agent.enabled == entry.agent && c.agent.root@ == root@ && c.agent.cwd
                    == *cwd && c.agent.home == *home && c.max_turns == d.max_turns
            }
        },
{
    let plan: &ChildPlan = match d.plans.get(name) {
        Some(p) => p,
        None => return Err(DelegateError::UnknownAgent(own(name))),
    };
    match plan.entry.resolve_system(read) {
        Err(e) => Err(DelegateError::Provider(own(name), e.message())),
        Ok(system) => Ok(
            Child {
                system,
                agent: AgentOptions {
                    enabled: plan.entry.agent,
                    root: root.clone(),
                    cwd: cwd.clone(),
                    home: home.clone(),
                },
                max_turns: d.max_turns,
            },
        ),
    }
}

// ---------------------------------------------------------------- laws

/// No child can delegate, whatever its parent can.
pub proof fn no_child_delegates(
    cfg: FlatConfigView,
    pairs: Seq<(Seq<char>, AgentRefView)>,
    n: int,
    name: Seq<char>,
)
    requires
        0 <= n <= pairs.len(),
        forall|i: int|
            0 <= i < n ==> agent_case(cfg, pairs[i].0, #[trigger] provider_at(pairs, i)) is Ok,
        plans_case(cfg, pairs, n).contains_key(name),
    ensures
        !plans_case(cfg, pairs, n)[name].tools.contains_key(DELEGATE_SET@),
    decreases n,
{
    if n > 0 {
        assert(agent_case(cfg, pairs[n - 1].0, provider_at(pairs, n - 1)) is Ok);
        if name != pairs[n - 1].0 {
            no_child_delegates(cfg, pairs, n - 1, name);
        }
    }
}

} // verus!
