//! Running children: which agent may be delegated to, what its calls are let through with, and what it cost.

use vstd::prelude::*;

use crate::chat::report::{
    added, clamped, ledger_holds, spent_of, usage_of, DelegationLedger, RunRecorder,
};
use crate::chat::run::{refusal, refusal_text, RunOutcome, RunRequest};
use crate::headless::error::ChatError;
use crate::headless::AgentOptions;
use crate::map::{pairs_of, Duplicate, StrMap};
use crate::message::{no_usage, Usage};
use crate::text::{debug_text, own, quoted, strs};

use vstd::string::*;

verus! {

/// What is known of an agent that can be delegated to.
pub struct AgentInfo {
    /// What the agent is for.
    pub description: String,
    /// Whether none of its tools writes, asks or opens anything.
    pub read_only: bool,
}

/// What an [`AgentInfo`] says.
pub struct InfoView {
    pub description: Seq<char>,
    pub read_only: bool,
}

impl View for AgentInfo {
    type V = InfoView;

    open spec fn view(&self) -> InfoView {
        InfoView { description: self.description@, read_only: self.read_only }
    }
}

impl Duplicate for AgentInfo {
    fn duplicate(&self) -> (r: AgentInfo) {
        AgentInfo { description: self.description.clone(), read_only: self.read_only }
    }
}

/// What one delegated child runs with beside its provider and its tools, freshly built per delegation.
pub struct Child {
    /// Its system prompt (`""` = none).
    pub system: String,
    /// Its agent-mode settings.
    pub agent: AgentOptions,
    /// Its own cap of turns (`None` = none; the shared budget still applies).
    pub max_turns: Option<u32>,
}

/// What a child did.
pub struct DelegateResult {
    /// Its reply (empty on failure).
    pub reply: String,
    /// The rounds it ran.
    pub rounds: u32,
    /// What they cost.
    pub usage: Usage,
    /// How long it took, in milliseconds.
    pub duration_ms: u64,
}

/// What a delegation gave: what the child did, and the text of its error when it failed.
pub struct DelegateOutcome {
    pub result: DelegateResult,
    pub error: Option<String>,
}

/// The agents that can be delegated to.
pub struct ChatDelegator {
    agents: StrMap<AgentInfo>,
    names: Vec<String>,
}

impl ChatDelegator {
    /// The agents by name.
    pub closed spec fn known(&self) -> Map<Seq<char>, InfoView> {
        self.agents@
    }

    /// The names, as they are listed.
    pub closed spec fn listed(&self) -> Seq<Seq<char>> {
        strs(self.names@)
    }

    /// A delegator over `agents`; the names are listed in name order.
    pub fn new(agents: StrMap<AgentInfo>) -> (r: ChatDelegator)
        ensures
            r.known() == agents@,
            r.listed() == Seq::new(pairs_of(agents@).len(), |i: int| pairs_of(agents@)[i].0),
    {
        let n: usize = agents.len();
        let mut names: Vec<String> = Vec::new();
        for i in 0..n
            invariant
                n == agents.pairs().len(),
                names@.len() == i,
                forall|k: int| 0 <= k < i ==> (#[trigger] names@[k])@ == agents.pairs()[k].0,
        {
            names.push(agents.key_at(i).clone());
        }
        assert(strs(names@) =~= Seq::new(
            pairs_of(agents@).len(),
            |i: int| pairs_of(agents@)[i].0,
        ));
        ChatDelegator { agents, names }
    }

    /// The names, in name order.
    pub fn agent_names(&self) -> (r: &Vec<String>)
        ensures
            strs(r@) == self.listed(),
    {
        &self.names
    }

    /// What is known of an agent.
    pub fn agent(&self, name: &str) -> (r: Option<&AgentInfo>)
        ensures
            match r {
                Some(a) => self.known().contains_key(name@) && a@ == self.known()[name@],
                None => !self.known().contains_key(name@),
            },
    {
        self.agents.get(name)
    }

    /// Whether a delegation to `name` may start; if not, what it gives.
    pub fn let_start(&self, name: &str) -> (r: Result<(), DelegateOutcome>)
        ensures
            match r {
                Ok(_) => self.known().contains_key(name@),
                Err(o) => {
                    &&& !self.known().contains_key(name@)
                    &&& o.error matches Some(e) && e@ == "unknown agent "@ + debug_text(name@)
                    &&& spent_nothing(o.result)
                },
            },
    {
        if self.agents.contains_key(name) {
            return Ok(());
        }
        let mut m: String = own("unknown agent ");
        m.append(quoted(name).as_str());
        Err(failed_before_start(m))
    }
}

/// A child that did nothing.
pub open spec fn spent_nothing(r: DelegateResult) -> bool {
    r.reply@.len() == 0 && r.rounds == 0 && r.usage == no_usage() && r.duration_ms == 0
}

/// A child that never reached its provider: no accounting beside the error.
pub fn failed_before_start(error: String) -> (r: DelegateOutcome)
    ensures
        spent_nothing(r.result),
        r.error == Some(error),
{
    DelegateOutcome {
        result: DelegateResult {
            reply: String::new(),
            rounds: 0,
            usage: Usage::default(),
            duration_ms: 0,
        },
        error: Some(error),
    }
}

/// What a child sends: its task, under its own prompt, with no history. Children never resume a session.
pub fn child_request(task: String, child: Child) -> (r: RunRequest)
    ensures
        r.message == task,
        r.system == child.system,
        r.agent == child.agent,
        r.history@.len() == 0,
{
    RunRequest { message: task, system: child.system, agent: child.agent, history: Vec::new() }
}

/// What a delegation gave once its child ran. The ledger accounts for it whether or not the child succeeded:
/// its rounds were billed.
pub fn settle_child(
    outcome: Result<RunOutcome, ChatError>,
    rec: &RunRecorder,
    duration_ms: u64,
    ledger: &mut DelegationLedger,
) -> (r: DelegateOutcome)
    requires
        ledger_holds(*old(ledger), clamped(rec@.rounds.len()), usage_of(rec@.total)),
    ensures
        r.result.rounds == clamped(rec@.rounds.len()),
        r.result.usage == usage_of(rec@.total),
        r.result.duration_ms == duration_ms,
        match outcome {
            Ok(o) => r.error is None && r.result.reply@ == o.reply@,
            Err(e) => r.result.reply@.len() == 0 && (r.error matches Some(m) && m@ == e.text()),
        },
        final(ledger).spent == Some(
            (
                (spent_of(*old(ledger)).0 + r.result.rounds) as u32,
                added(spent_of(*old(ledger)).1, r.result.usage),
            ),
        ),
{
    let rounds: u32 = rec.round_count();
    let usage: Usage = rec.usage();
    ledger.add(rounds, usage);
    let (reply, error) = match outcome {
        Ok(o) => (o.reply, None),
        Err(e) => (String::new(), Some(e.message())),
    };
    DelegateOutcome { result: DelegateResult { reply, rounds, usage, duration_ms }, error }
}

/// What the parent of a child is asked: which call, what it is about, and which agent wants it.
pub struct ApprovalRequest {
    pub name: String,
    pub detail: String,
    pub agent: String,
}

/// What becomes of a call of a child.
pub enum GateAction {
    /// Ask the parent.
    Ask(ApprovalRequest),
    /// Run the call.
    Run,
    /// Do not run it: the model reads this in its place.
    Refuse(String),
}

/// The approval of one call of a child.
pub struct ChildGate {
    asking: bool,
}

impl ChildGate {
    /// Whether the parent was asked and has not answered.
    pub closed spec fn waits(&self) -> bool {
        self.asking
    }

    /// Brings a call up for approval. One that needs none runs; any other is put to the parent, labelled with
    /// the agent that wants it, and refused where the parent has nobody to ask.
    pub fn begin(
        agent: &str,
        name: &str,
        detail: &str,
        requires_approval: bool,
        has_approver: bool,
    ) -> (r: (ChildGate, GateAction))
        ensures
            r.0.waits() == (requires_approval && has_approver),
            if !requires_approval {
                r.1 is Run
            } else if has_approver {
                r.1 matches GateAction::Ask(q) && q.name@ == name@ && q.detail@ == detail@
                    && q.agent@ == agent@
            } else {
                r.1 matches GateAction::Refuse(why) && why@ == refusal(name@)
            },
    {
        if !requires_approval {
            return (ChildGate { asking: false }, GateAction::Run);
        }
        if !has_approver {
            return (ChildGate { asking: false }, GateAction::Refuse(refusal_text(name)));
        }
        let q = ApprovalRequest { name: own(name), detail: own(detail), agent: own(agent) };
        (ChildGate { asking: true }, GateAction::Ask(q))
    }

    /// Takes the parent's answer, which ends it: the call runs if and only if it was allowed, and else the model
    /// reads the parent's words. The parent is not asked again.
    pub fn answered(self, allowed: bool, why: String) -> (r: (ChildGate, GateAction))
        requires
            self.waits(),
        ensures
            !r.0.waits(),
            r.1 == if allowed {
                GateAction::Run
            } else {
                GateAction::Refuse(why)
            },
    {
        let action = if allowed {
            GateAction::Run
        } else {
            GateAction::Refuse(why)
        };
        (ChildGate { asking: false }, action)
    }
}

} // verus!
