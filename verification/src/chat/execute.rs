//! The tool loop from end to end: poll, mount, request, and either the reply or the calls, round after round.
//!
//! The outside performs one action at a time and answers it; what comes next is decided here.

use vstd::prelude::*;

use crate::chat::batch::{parallel_run, run_end, run_end_within, step_end};
use crate::chat::report::{addable, names_of, observed, usage_or_none};
use crate::chat::run::{
    begun, calls_message, gate_call, gated, next_round, reply_message, result_messages,
    round_outcome, Approver, LoopOutcome, LoopView, OutcomeView, QuietHost, RoundEnd, RoundResult,
    ToolLoop,
};
use crate::headless::error::ChatError;
use crate::map::views;
use crate::message::{plain_message, BodyView, CallView, DefView, ToolCall, ToolDef};
use crate::text::strs;

verus! {

/// The calls of a round with what the first of them gave.
pub struct CallPlan {
    calls: Vec<ToolCall>,
    parallel: Vec<bool>,
    results: Vec<(String, bool)>,
}

/// What a [`CallPlan`] says: the calls, which of them may run beside others, and what the first ones gave.
pub struct PlanView {
    pub calls: Seq<CallView>,
    pub parallel: Seq<bool>,
    pub results: Seq<(String, bool)>,
}

impl View for CallPlan {
    type V = PlanView;

    closed spec fn view(&self) -> PlanView {
        PlanView {
            calls: views(self.calls@),
            parallel: self.parallel@,
            results: self.results@,
        }
    }
}

/// How far the loop is.
pub enum Stage {
    Top,
    Refreshing,
    Mounting,
    Requesting,
    Replying(LoopOutcome),
    Splitting(Vec<ToolCall>),
    Batching(CallPlan, usize),
    Gating(CallPlan),
    Running(CallPlan),
    Over,
}

/// What a [`Stage`] says.
pub enum StageView {
    /// A round is about to begin.
    Top,
    /// The advertised tools are asked for again.
    Refreshing,
    /// What a search loaded is asked for.
    Mounting,
    /// The conversation is out.
    Requesting,
    /// The model is done; a background job may not be.
    Replying(OutcomeView),
    /// The model asked for calls.
    Splitting(Seq<CallView>),
    /// Calls run beside each other, up to an end.
    Batching(PlanView, int),
    /// A call waits to be let through.
    Gating(PlanView),
    /// A call runs alone.
    Running(PlanView),
    /// The loop is over.
    Over,
}

impl View for Stage {
    type V = StageView;

    open spec fn view(&self) -> StageView {
        match *self {
            Stage::Top => StageView::Top,
            Stage::Refreshing => StageView::Refreshing,
            Stage::Mounting => StageView::Mounting,
            Stage::Requesting => StageView::Requesting,
            Stage::Replying(o) => StageView::Replying(o@),
            Stage::Splitting(calls) => StageView::Splitting(views(calls@)),
            Stage::Batching(p, end) => StageView::Batching(p@, end as int),
            Stage::Gating(p) => StageView::Gating(p@),
            Stage::Running(p) => StageView::Running(p@),
            Stage::Over => StageView::Over,
        }
    }
}

/// What is to be done next.
pub enum LoopAction {
    /// See whether the run was cancelled, and which background jobs finished.
    Poll,
    /// Ask for the advertised tools again.
    Refresh,
    /// Take what a search loaded.
    TakePending,
    /// Send the conversation.
    Request,
    /// Wait for a background job.
    WaitJob,
    /// Say which of the calls may run beside others.
    SplitCalls,
    /// Run these calls beside each other.
    Batch {
        from: usize,
        to: usize,
    },
    /// See whether a call may run.
    Gate {
        at: usize,
    },
    /// Run one call.
    Run {
        at: usize,
    },
    /// The loop is over.
    Finished(Result<LoopOutcome, ChatError>),
}

/// What a [`LoopAction`] says.
pub enum ActionView {
    Poll,
    Refresh,
    TakePending,
    Request,
    WaitJob,
    SplitCalls,
    Batch(int, int),
    Gate(int),
    Run(int),
    Finished(Result<OutcomeView, ChatError>),
}

impl View for LoopAction {
    type V = ActionView;

    open spec fn view(&self) -> ActionView {
        match *self {
            LoopAction::Poll => ActionView::Poll,
            LoopAction::Refresh => ActionView::Refresh,
            LoopAction::TakePending => ActionView::TakePending,
            LoopAction::Request => ActionView::Request,
            LoopAction::WaitJob => ActionView::WaitJob,
            LoopAction::SplitCalls => ActionView::SplitCalls,
            LoopAction::Batch { from, to } => ActionView::Batch(from as int, to as int),
            LoopAction::Gate { at } => ActionView::Gate(at as int),
            LoopAction::Run { at } => ActionView::Run(at as int),
            LoopAction::Finished(Ok(o)) => ActionView::Finished(Ok(o@)),
            LoopAction::Finished(Err(e)) => ActionView::Finished(Err(e)),
        }
    }
}

/// What an action gave.
pub enum LoopEvent {
    /// Whether the run was cancelled, and the notices of the jobs that finished.
    Polled {
        cancelled: bool,
        notices: Vec<String>,
    },
    Refreshed,
    /// The tools that a search loaded.
    Pending(Vec<ToolDef>),
    /// What the model said, or the text of the failure.
    Answered(Result<RoundResult, String>),
    /// The notice of a job that was waited for; `None` when there is none to wait for.
    Job(Option<String>),
    /// Which of the calls may run beside others.
    Split(Vec<bool>),
    /// What the model reads in place of a call that may not run.
    Gated(Option<String>),
    /// What the calls gave, in call order.
    Ran(Vec<(String, bool)>),
}

/// Whether a plan can go on: it has a call left, and says of each call whether it may run beside others.
pub open spec fn open_plan(p: PlanView) -> bool {
    p.parallel.len() == p.calls.len() && p.results.len() < p.calls.len()
}

/// Whether a stage is one that the loop can be in.
pub open spec fn sound(s: StageView) -> bool {
    match s {
        StageView::Splitting(calls) => calls.len() > 0,
        StageView::Batching(p, end) => open_plan(p) && end == step_end(
            p.parallel,
            p.results.len() as int,
        ),
        StageView::Gating(p) => open_plan(p),
        StageView::Running(p) => open_plan(p),
        _ => true,
    }
}

/// Whether an event is an answer that a stage waits for.
pub open spec fn awaits(l: LoopView, s: StageView, e: LoopEvent) -> bool {
    match s {
        StageView::Top => e is Polled,
        StageView::Refreshing => e is Refreshed,
        StageView::Mounting => e is Pending,
        StageView::Requesting => e matches LoopEvent::Answered(r) && (r matches Ok(round)
            ==> addable(l.rec.total, usage_or_none(round.usage))),
        StageView::Replying(_) => e is Job,
        StageView::Splitting(calls) => e matches LoopEvent::Split(p) && p@.len() == calls.len(),
        StageView::Batching(p, end) => e matches LoopEvent::Ran(r) && r@.len() == end
            - p.results.len(),
        StageView::Gating(_) => e is Gated,
        StageView::Running(_) => e matches LoopEvent::Ran(r) && r@.len() == 1,
        StageView::Over => false,
    }
}

/// The loop, the stage and the action that follow.
pub type Next = (LoopView, StageView, ActionView);

/// What follows once a plan has `p.results`: the next step, or the next round when every call gave its result.
pub open spec fn planned(l: LoopView, p: PlanView) -> Next {
    let at = p.results.len() as int;
    if at >= p.calls.len() {
        (
            LoopView {
                history: l.history + result_messages(p.calls, p.results),
                rounds: next_round(l.rounds),
                ..l
            },
            StageView::Top,
            ActionView::Poll,
        )
    } else if run_end(p.parallel, at) - at >= 2 {
        let end = step_end(p.parallel, at);
        (l, StageView::Batching(p, end), ActionView::Batch(at, end))
    } else {
        (l, StageView::Gating(p), ActionView::Gate(at))
    }
}

/// The loop after what a search loaded was mounted.
pub open spec fn mounted(l: LoopView, defs: Seq<DefView>) -> LoopView {
    if defs.len() == 0 {
        l
    } else {
        LoopView {
            history: l.history.push(
                plain_message(Seq::empty(), BodyView::SystemTools(defs)),
            ),
            ..l
        }
    }
}

/// What follows a round that the model answered.
pub open spec fn told(l: LoopView, round: RoundResult) -> Next {
    let calls = views(round.tool_calls@);
    let heard = LoopView { rec: observed(l.rec, round.usage, names_of(calls)), ..l };
    if calls.len() == 0 {
        (heard, StageView::Replying(round_outcome(round)), ActionView::WaitJob)
    } else {
        (
            LoopView { history: l.history.push(calls_message(round)), ..heard },
            StageView::Splitting(calls),
            ActionView::SplitCalls,
        )
    }
}

/// What follows a reply: the end, unless a job was waited for.
pub open spec fn replied(l: LoopView, o: OutcomeView, job: Option<String>) -> Next {
    match job {
        None => (l, StageView::Over, ActionView::Finished(Ok(o))),
        Some(notice) => (
            LoopView {
                history: l.history.push(reply_message(o)).push(
                    plain_message(notice@, BodyView::Notice),
                ),
                rounds: next_round(l.rounds),
                ..l
            },
            StageView::Top,
            ActionView::Poll,
        ),
    }
}

/// The loop, the stage and the action that follow an answer.
pub open spec fn step(l: LoopView, s: StageView, e: LoopEvent) -> Next
    recommends
        awaits(l, s, e),
{
    match (s, e) {
        (StageView::Top, LoopEvent::Polled { cancelled, notices }) => {
            let (next, r) = begun(l, cancelled, strs(notices@));
            match r {
                Err(e) => (next, StageView::Over, ActionView::Finished(Err(e))),
                Ok(again) => if again {
                    (next, StageView::Refreshing, ActionView::Refresh)
                } else {
                    (next, StageView::Mounting, ActionView::TakePending)
                },
            }
        },
        (StageView::Refreshing, LoopEvent::Refreshed) => (
            l,
            StageView::Mounting,
            ActionView::TakePending,
        ),
        (StageView::Mounting, LoopEvent::Pending(defs)) => (
            mounted(l, views(defs@)),
            StageView::Requesting,
            ActionView::Request,
        ),
        (StageView::Requesting, LoopEvent::Answered(r)) => match r {
            Err(text) => (
                l,
                StageView::Over,
                ActionView::Finished(Err(ChatError::Provider(text))),
            ),
            Ok(round) => told(l, round),
        },
        (StageView::Replying(o), LoopEvent::Job(job)) => replied(l, o, job),
        (StageView::Splitting(calls), LoopEvent::Split(parallel)) => planned(
            l,
            PlanView { calls, parallel: parallel@, results: Seq::empty() },
        ),
        (StageView::Batching(p, _), LoopEvent::Ran(results)) => planned(
            l,
            PlanView { results: p.results + results@, ..p },
        ),
        (StageView::Gating(p), LoopEvent::Gated(refusal)) => match refusal {
            Some(why) => planned(l, PlanView { results: p.results.push((why, true)), ..p }),
            None => (l, StageView::Running(p), ActionView::Run(p.results.len() as int)),
        },
        (StageView::Running(p), LoopEvent::Ran(results)) => planned(
            l,
            PlanView { results: p.results + results@, ..p },
        ),
        _ => (l, s, ActionView::Poll),
    }
}

/// What follows once a plan has its results so far.
fn go_on(l: &mut ToolLoop, p: CallPlan) -> (r: (Stage, LoopAction))
    requires
        p@.parallel.len() == p@.calls.len(),
        p@.results.len() <= p@.calls.len(),
    ensures
        (final(l)@, r.0@, r.1@) == planned(old(l)@, p@),
        sound(r.0@),
{
    let at: usize = p.results.len();
    assert(views(p.calls@).len() == p.calls@.len());
    proof {
        run_end_within(p.parallel@, at as int);
    }
    if at >= p.calls.len() {
        l.take_results(&p.calls, &p.results);
        return (Stage::Top, LoopAction::Poll);
    }
    let end: usize = parallel_run(&p.calls, &p.parallel, at);
    if end - at >= 2 {
        (Stage::Batching(p, end), LoopAction::Batch { from: at, to: end })
    } else {
        (Stage::Gating(p), LoopAction::Gate { at })
    }
}

/// A plan with more results.
fn with_results(p: CallPlan, more: Vec<(String, bool)>) -> (r: CallPlan)
    ensures
        r@ == (PlanView { results: p@.results + more@, ..p@ }),
{
    let mut results: Vec<(String, bool)> = p.results;
    let mut more: Vec<(String, bool)> = more;
    results.append(&mut more);
    CallPlan { calls: p.calls, parallel: p.parallel, results }
}

/// The tool loop between two actions of the outside.
pub struct Execution {
    state: ToolLoop,
    stage: Stage,
}

impl Execution {
    /// How far the loop is.
    pub closed spec fn at(&self) -> StageView {
        self.stage@
    }

    /// The conversation, the caps and the accounting.
    pub closed spec fn held(&self) -> LoopView {
        self.state@
    }

    #[verifier::type_invariant]
    closed spec fn inv(&self) -> bool {
        sound(self.stage@)
    }

    /// Begins the loop.
    pub fn begin(state: ToolLoop) -> (r: (Execution, LoopAction))
        ensures
            r.0.held() == state@,
            r.0.at() == StageView::Top,
            r.1@ == ActionView::Poll,
    {
        (Execution { state, stage: Stage::Top }, LoopAction::Poll)
    }

    /// The conversation, the caps and the accounting.
    pub fn state(&self) -> (r: &ToolLoop)
        ensures
            r@ == self.held(),
    {
        &self.state
    }

    /// What is left of the loop.
    pub fn into_state(self) -> (r: ToolLoop)
        ensures
            r@ == self.held(),
    {
        self.state
    }

    /// The calls that the model asked for, while they are being run.
    pub fn calls(&self) -> (r: Option<&Vec<ToolCall>>)
        ensures
            match self.at() {
                StageView::Splitting(calls) => r matches Some(v) && views(v@) == calls,
                StageView::Batching(p, _) => r matches Some(v) && views(v@) == p.calls,
                StageView::Gating(p) => r matches Some(v) && views(v@) == p.calls,
                StageView::Running(p) => r matches Some(v) && views(v@) == p.calls,
                _ => r is None,
            },
    {
        match &self.stage {
            Stage::Splitting(calls) => Some(calls),
            Stage::Batching(p, _) => Some(&p.calls),
            Stage::Gating(p) => Some(&p.calls),
            Stage::Running(p) => Some(&p.calls),
            _ => None,
        }
    }

    /// Takes the answer to the last action and says what is next. A call that waits to be let through is not
    /// answered here: see [`Execution::let_through`].
    pub fn execute_with_tools(self, event: LoopEvent) -> (r: (Execution, LoopAction))
        requires
            awaits(self.held(), self.at(), event),
            !(event is Gated),
        ensures
            (r.0.held(), r.0.at(), r.1@) == step(self.held(), self.at(), event),
    {
        self.take(event)
    }

    /// Puts the call that waits to its host, given whether it needs approval and its detail, and says what is
    /// next: it runs alone, or its result is the host's refusal.
    pub fn let_through<A: Approver>(
        self,
        host: &QuietHost<A>,
        requires_approval: bool,
        detail: &str,
    ) -> (r: (Execution, LoopAction))
        requires
            self.at() is Gating,
        ensures
            ({
                let p = self.at()->Gating_0;
                exists|call: ToolCall, why: Option<String>|
                    {
                        &&& call@ == p.calls[p.results.len() as int]
                        &&& #[trigger] gated(*host, call, requires_approval, detail, why)
                        &&& (r.0.held(), r.0.at(), r.1@) == step(
                            self.held(),
                            self.at(),
                            LoopEvent::Gated(why),
                        )
                    }
            }),
    {
        proof {
            use_type_invariant(&self);
        }
        let refusal: Option<String> = match &self.stage {
            Stage::Gating(p) => {
                assert(views(p.calls@).len() == p.calls@.len());
                gate_call(host, &p.calls[p.results.len()], requires_approval, detail)
            },
            _ => None,
        };
        self.take(LoopEvent::Gated(refusal))
    }

    /// Takes an answer.
    fn take(self, event: LoopEvent) -> (r: (Execution, LoopAction))
        requires
            awaits(self.held(), self.at(), event),
        ensures
            (r.0.held(), r.0.at(), r.1@) == step(self.held(), self.at(), event),
    {
        proof {
            use_type_invariant(&self);
        }
        let mut state: ToolLoop = self.state;
        let (stage, action) = match (self.stage, event) {
            (Stage::Top, LoopEvent::Polled { cancelled, notices }) => {
                match state.begin_round(cancelled, notices) {
                    Err(e) => (Stage::Over, LoopAction::Finished(Err(e))),
                    Ok(again) => if again {
                        (Stage::Refreshing, LoopAction::Refresh)
                    } else {
                        (Stage::Mounting, LoopAction::TakePending)
                    },
                }
            },
            (Stage::Refreshing, LoopEvent::Refreshed) => (
                Stage::Mounting,
                LoopAction::TakePending,
            ),
            (Stage::Mounting, LoopEvent::Pending(defs)) => {
                assert(views(defs@).len() == defs@.len());
                state.mount(defs);
                (Stage::Requesting, LoopAction::Request)
            },
            (Stage::Requesting, LoopEvent::Answered(r)) => match r {
                Err(text) => (Stage::Over, LoopAction::Finished(Err(ChatError::Provider(text)))),
                Ok(round) => {
                    assert(views(round.tool_calls@).len() == round.tool_calls@.len());
                    match state.take_round(round) {
                        RoundEnd::Reply(o) => (Stage::Replying(o), LoopAction::WaitJob),
                        RoundEnd::Calls(calls) => (
                            Stage::Splitting(calls),
                            LoopAction::SplitCalls,
                        ),
                    }
                },
            },
            (Stage::Replying(o), LoopEvent::Job(job)) => match state.take_reply(o, job) {
                Some(done) => (Stage::Over, LoopAction::Finished(Ok(done))),
                None => (Stage::Top, LoopAction::Poll),
            },
            (Stage::Splitting(calls), LoopEvent::Split(parallel)) => {
                assert(views(calls@).len() == calls@.len());
                go_on(&mut state, CallPlan { calls, parallel, results: Vec::new() })
            },
            (Stage::Batching(p, _), LoopEvent::Ran(results)) => {
                proof {
                    run_end_within(p@.parallel, p@.results.len() as int);
                }
                go_on(&mut state, with_results(p, results))
            },
            (Stage::Gating(p), LoopEvent::Gated(refusal)) => match refusal {
                Some(why) => {
                    let mut more: Vec<(String, bool)> = Vec::new();
                    more.push((why, true));
                    let ghost before = p@.results;
                    assert(before + more@ =~= before.push((why, true)));
                    go_on(&mut state, with_results(p, more))
                },
                None => {
                    let at: usize = p.results.len();
                    (Stage::Running(p), LoopAction::Run { at })
                },
            },
            (Stage::Running(p), LoopEvent::Ran(results)) => go_on(
                &mut state,
                with_results(p, results),
            ),
            (stage, _) => (stage, LoopAction::Poll),
        };
        (Execution { state, stage }, action)
    }
}

// ---------------------------------------------------------------- laws

/// The loop, the stage and the actions that a run of answers leads to.
pub open spec fn executed(l: LoopView, events: Seq<LoopEvent>) -> (
    LoopView,
    StageView,
    Seq<ActionView>,
)
    decreases events.len(),
{
    if events.len() == 0 {
        (l, StageView::Top, seq![ActionView::Poll])
    } else {
        let (before, stage, actions) = executed(l, events.drop_last());
        let (after, next, action) = step(before, stage, events.last());
        (after, next, actions.push(action))
    }
}

/// Whether every event of a run answers the action before it.
pub open spec fn answered(l: LoopView, events: Seq<LoopEvent>) -> bool
    decreases events.len(),
{
    events.len() == 0 || ({
        let (before, stage, _) = executed(l, events.drop_last());
        answered(l, events.drop_last()) && awaits(before, stage, events.last())
    })
}

/// What has to stand right before an action.
pub open spec fn follows(before: ActionView, action: ActionView) -> bool {
    match action {
        ActionView::Poll => before is WaitJob || before is Batch || before is Gate
            || before is Run,
        ActionView::Refresh => before is Poll,
        ActionView::TakePending => before is Poll || before is Refresh,
        ActionView::Request => before is TakePending,
        ActionView::WaitJob => before is Request,
        ActionView::SplitCalls => before is Request,
        ActionView::Batch(_, _) => before is SplitCalls || before is Batch || before is Gate
            || before is Run,
        ActionView::Gate(_) => before is SplitCalls || before is Batch || before is Gate
            || before is Run,
        ActionView::Run(at) => before == ActionView::Gate(at),
        ActionView::Finished(_) => before is Poll || before is Request || before is WaitJob,
    }
}

/// Which action a stage has just asked for.
pub open spec fn asked_by(s: StageView, a: ActionView) -> bool {
    match s {
        StageView::Top => a is Poll,
        StageView::Refreshing => a is Refresh,
        StageView::Mounting => a is TakePending,
        StageView::Requesting => a is Request,
        StageView::Replying(_) => a is WaitJob,
        StageView::Splitting(_) => a is SplitCalls,
        StageView::Batching(p, end) => a == ActionView::Batch(p.results.len() as int, end),
        StageView::Gating(p) => a == ActionView::Gate(p.results.len() as int),
        StageView::Running(p) => a == ActionView::Run(p.results.len() as int),
        StageView::Over => a is Finished,
    }
}

/// The last action is the one that the stage waits for, and the stage is sound.
proof fn stage_is_asked(l: LoopView, events: Seq<LoopEvent>)
    requires
        answered(l, events),
    ensures
        ({
            let (_, stage, actions) = executed(l, events);
            &&& actions.len() == events.len() + 1
            &&& asked_by(stage, actions.last())
            &&& sound(stage)
        }),
    decreases events.len(),
{
    if events.len() > 0 {
        stage_is_asked(l, events.drop_last());
        let (before, stage, _) = executed(l, events.drop_last());
        match stage {
            StageView::Splitting(calls) => {},
            StageView::Batching(p, end) => {
                run_end_within(p.parallel, p.results.len() as int);
            },
            _ => {},
        }
    }
}

/// The order of the loop: every request follows a poll that let the round begin, the tools having been asked for
/// again from the second round on; a call that runs alone was let through right before; and the loop ends at a
/// poll that refused the round, at a failed request, or at a reply.
pub proof fn loop_keeps_its_order(l: LoopView, events: Seq<LoopEvent>, i: int)
    requires
        answered(l, events),
        0 < i < executed(l, events).2.len(),
    ensures
        follows(executed(l, events).2[i - 1], executed(l, events).2[i]),
    decreases events.len(),
{
    if events.len() > 0 {
        let init = events.drop_last();
        stage_is_asked(l, init);
        stage_is_asked(l, events);
        let before = executed(l, init).2;
        if i < before.len() {
            loop_keeps_its_order(l, init, i);
        }
    }
}

/// Every call of a round gave its result when the next round begins: the conversation grew by one message for
/// each of them.
pub proof fn every_call_is_answered(l: LoopView, p: PlanView)
    requires
        planned(l, p).1 is Top,
        p.results.len() == p.calls.len(),
    ensures
        planned(l, p).0.history.len() == l.history.len() + p.calls.len(),
        forall|i: int|
            0 <= i < p.calls.len() ==> #[trigger] planned(l, p).0.history[l.history.len() + i]
                == result_messages(p.calls, p.results)[i],
{
}

} // verus!
