//! One run through the model: what it sends first, the tool loop round by round, and what it leaves behind.

use vstd::prelude::*;
use vstd::string::*;

use crate::chat::images::SavedImages;
use crate::chat::report::{
    addable, names_of, observed, record_of, tool_names, usage_or_none, RecordView, RunRecorder,
};
use crate::chat::turns::{after_claim, cap_of, left_of, take_turn, turn_limit, TurnBudget};
use crate::headless::error::ChatError;
use crate::headless::AgentOptions;
use crate::map::{copy_all, views};
use crate::message::{
    plain_message, AssistantBody, AssistantView, Attachment, Body, BodyView, CallView,
    FileView, Message, MessageView, ToolCall, ToolDef, Usage,
};
use crate::provider::opt_view;
use crate::text::{own, strs};

verus! {

/// The text that the model reads of a refused call.
pub open spec fn refusal(name: Seq<char>) -> Seq<char> {
    name
        + " was not executed: it requires interactive approval, which is unavailable in this non-interactive run. Set the toolset's auto-approve option (tools.code.auto_write / tools.shell.auto_run) to permit it here."@
}

/// The text that the model reads of a refused call; `name` is the name the model called it by.
pub fn refusal_text(name: &str) -> (r: String)
    ensures
        r@ == refusal(name@),
{
    let mut m: String = own(name);
    m.append(
        " was not executed: it requires interactive approval, which is unavailable in this non-interactive run. Set the toolset's auto-approve option (tools.code.auto_write / tools.shell.auto_run) to permit it here.",
    );
    m
}

/// What answers approval requests.
pub trait Approver {
    /// The answer to a call with its detail: whether it may run, and what the model reads if not.
    fn answer(&self, call: &ToolCall, detail: &str) -> (r: (bool, String));
}

/// Nobody to ask.
pub struct Nobody;

impl Approver for Nobody {
    fn answer(&self, call: &ToolCall, detail: &str) -> (r: (bool, String))
        ensures
            !r.0 && r.1@ == refusal(call@.name),
    {
        (false, refusal_text(call.name.as_str()))
    }
}

/// The headless host: it records every round, and refuses every approval request unless it was given somebody to
/// ask.
pub struct QuietHost<A: Approver> {
    /// The accounting of this run.
    pub rec: RunRecorder,
    /// Who is asked; `None` refuses, nobody being there.
    pub approve: Option<A>,
}

impl Default for QuietHost<Nobody> {
    /// A host that refuses.
    fn default() -> (r: QuietHost<Nobody>)
        ensures
            r.approve is None,
            r.rec@ == record_of(Seq::empty()),
    {
        QuietHost { rec: RunRecorder::start(), approve: None }
    }
}

impl QuietHost<Nobody> {
    /// A host that refuses.
    pub fn new() -> (r: QuietHost<Nobody>)
        ensures
            r.approve is None,
            r.rec@ == record_of(Seq::empty()),
    {
        QuietHost::default()
    }
}

impl<A: Approver> QuietHost<A> {
    /// Whether `said` can be the answer to an approval request: a refusal that says how to permit the call, or
    /// what the approver says to this call and detail, verbatim.
    pub open spec fn says(&self, call: &ToolCall, detail: &str, said: (bool, String)) -> bool {
        match self.approve {
            None => !said.0 && said.1@ == refusal(call@.name),
            Some(a) => call_ensures(A::answer, (&a, call, detail), said),
        }
    }

    /// The answer to an approval request.
    pub fn ask_approval(&self, call: &ToolCall, detail: &str) -> (r: (bool, String))
        ensures
            self.says(call, detail, r),
    {
        match &self.approve {
            None => (false, refusal_text(call.name.as_str())),
            Some(a) => a.answer(call, detail),
        }
    }
}

/// What one run sends.
pub struct RunRequest {
    /// The user message.
    pub message: String,
    /// The system prompt (empty = none).
    pub system: String,
    /// Agent-mode overlay settings.
    pub agent: AgentOptions,
    /// Imported history. A NON-EMPTY history wins over `system`.
    pub history: Vec<Message>,
}

/// What one run produced.
pub struct RunOutcome {
    /// The final reply.
    pub reply: String,
    /// The images saved.
    pub images: Vec<String>,
    /// The failures to save one.
    pub image_errors: Vec<String>,
    /// Everything the run appended after the imported history.
    pub delta: Vec<Message>,
}

/// The messages a run starts from: the imported history, a system message when there is no history and a
/// prompt, and the user's message.
pub open spec fn opening(history: Seq<MessageView>, system: Seq<char>, message: Seq<char>) -> Seq<
    MessageView,
> {
    if history.len() == 0 && system.len() > 0 {
        seq![plain_message(system, BodyView::System), plain_message(message, BodyView::User)]
    } else {
        history.push(plain_message(message, BodyView::User))
    }
}

/// The messages a run starts from, and how many of them were imported.
pub fn open_run(req: &RunRequest) -> (r: (Vec<Message>, usize))
    ensures
        views(r.0@) == opening(views(req.history@), req.system@, req.message@),
        r.1 == req.history@.len(),
{
    let mut messages: Vec<Message> = copy_all(&req.history);
    assert(views(messages@).len() == messages@.len());
    let watermark: usize = req.history.len();
    if messages.len() == 0 && !req.system.as_str().is_empty() {
        messages.push(Message::system(req.system.as_str()));
    }
    messages.push(Message::user(req.message.as_str()));
    assert(views(messages@) =~= opening(views(req.history@), req.system@, req.message@));
    (messages, watermark)
}

/// How a run goes through its provider.
#[derive(Clone, Copy, Debug, PartialEq, Eq, Structural)]
pub enum Route {
    /// Round by round, with tools.
    Rounds,
    /// One unary request.
    Unary,
}

/// How a run goes through its provider: round by round when there are tools and the provider can call them. A
/// run that was cancelled before it began does not begin.
pub fn route_run(cancelled: bool, calls_tools: bool, tools: usize) -> (r: Result<Route, ChatError>)
    ensures
        r == if cancelled {
            Err::<Route, ChatError>(ChatError::Interrupted)
        } else if calls_tools && tools > 0 {
            Ok(Route::Rounds)
        } else {
            Ok(Route::Unary)
        },
{
    if cancelled {
        return Err(ChatError::Interrupted);
    }
    if calls_tools && tools > 0 {
        Ok(Route::Rounds)
    } else {
        Ok(Route::Unary)
    }
}

/// Where the overlay of a run is read: the project's root, and the working directory the chain ends at. Only
/// agent mode has one.
pub fn overlay_place(agent: &AgentOptions) -> (r: Option<(String, String)>)
    ensures
        if !agent.enabled {
            r is None
        } else {
            r matches Some((root, cwd)) && root@ == agent.root@ && cwd@ == match agent.cwd {
                Some(dir) => dir@,
                None => agent.root@,
            }
        },
{
    if !agent.enabled {
        return None;
    }
    let cwd: String = match &agent.cwd {
        Some(dir) => dir.clone(),
        None => agent.root.clone(),
    };
    Some((agent.root.clone(), cwd))
}

/// What the loop hands back: the round that ended it.
pub struct LoopOutcome {
    /// The visible content.
    pub content: String,
    /// The reasoning.
    pub reasoning: String,
    /// The images it generated.
    pub images: Vec<Attachment>,
    /// What it cost.
    pub usage: Option<Usage>,
    /// The provider's own blocks.
    pub raw_content: Option<String>,
}

/// What a [`LoopOutcome`] says.
pub struct OutcomeView {
    pub content: Seq<char>,
    pub reasoning: Seq<char>,
    pub images: Seq<FileView>,
    pub usage: Option<Usage>,
    pub raw_content: Option<Seq<char>>,
}

impl View for LoopOutcome {
    type V = OutcomeView;

    open spec fn view(&self) -> OutcomeView {
        OutcomeView {
            content: self.content@,
            reasoning: self.reasoning@,
            images: views(self.images@),
            usage: self.usage,
            raw_content: opt_view(self.raw_content),
        }
    }
}

/// What the model said in one round.
pub struct RoundResult {
    pub content: String,
    pub reasoning: String,
    pub tool_calls: Vec<ToolCall>,
    pub raw_content: Option<String>,
    pub images: Vec<Attachment>,
    pub usage: Option<Usage>,
}

/// The outcome of a round without calls: a reply of reasoning alone IS the reply.
pub open spec fn round_outcome(r: RoundResult) -> OutcomeView {
    OutcomeView {
        content: if r.content@.len() == 0 && r.reasoning@.len() > 0 {
            r.reasoning@
        } else {
            r.content@
        },
        reasoning: r.reasoning@,
        images: views(r.images@),
        usage: r.usage,
        raw_content: opt_view(r.raw_content),
    }
}

/// The message of a reply.
pub open spec fn reply_message(o: OutcomeView) -> MessageView {
    plain_message(
        o.content,
        BodyView::Assistant(
            AssistantView {
                reasoning: o.reasoning,
                tool_calls: Seq::empty(),
                raw_content: o.raw_content,
                usage: o.usage,
            },
        ),
    )
}

/// The message of a round that asked for calls. Its reasoning is not kept.
pub open spec fn calls_message(r: RoundResult) -> MessageView {
    plain_message(
        r.content@,
        BodyView::Assistant(
            AssistantView {
                reasoning: Seq::empty(),
                tool_calls: views(r.tool_calls@),
                raw_content: opt_view(r.raw_content),
                usage: r.usage,
            },
        ),
    )
}

/// The message of what a call gave.
pub open spec fn result_message(call: CallView, text: Seq<char>, is_error: bool) -> MessageView {
    plain_message(text, BodyView::ToolResult(call.id, call.name, is_error))
}

/// The messages of what each call gave, in call order.
pub open spec fn result_messages(calls: Seq<CallView>, results: Seq<(String, bool)>) -> Seq<
    MessageView,
> {
    Seq::new(calls.len(), |i: int| result_message(calls[i], results[i].0@, results[i].1))
}

/// The messages of some notices.
pub open spec fn notice_messages(notices: Seq<Seq<char>>) -> Seq<MessageView> {
    Seq::new(notices.len(), |i: int| plain_message(notices[i], BodyView::Notice))
}

/// The outcome of a run without tools, which has one round.
pub fn unary_outcome(text: String, images: Vec<Attachment>, usage: Option<Usage>) -> (r:
    LoopOutcome)
    ensures
        r@ == (OutcomeView {
            content: text@,
            reasoning: Seq::empty(),
            images: views(images@),
            usage,
            raw_content: None,
        }),
{
    LoopOutcome { content: text, reasoning: String::new(), images, usage, raw_content: None }
}

/// What a run leaves behind: the reply, what was saved of its images, and everything past the watermark — the
/// final message, which carries the saved images, among it.
pub fn close_run(
    messages: Vec<Message>,
    watermark: usize,
    outcome: LoopOutcome,
    saved: SavedImages,
) -> (r: RunOutcome)
    requires
        watermark <= messages@.len(),
    ensures
        r.reply@ == outcome@.content,
        r.images == saved.paths,
        r.image_errors == saved.failures,
        views(r.delta@) == views(messages@).skip(watermark as int).push(
            MessageView {
                attachments: views(saved.attachments@),
                ..reply_message(outcome@)
            },
        ),
{
    let ghost all = views(messages@);
    let mut messages: Vec<Message> = messages;
    let reply: String = outcome.content.clone();
    let last = Message {
        content: outcome.content,
        attachments: saved.attachments,
        body: Body::Assistant(
            AssistantBody {
                reasoning: outcome.reasoning,
                tool_calls: Vec::new(),
                raw_content: outcome.raw_content,
                usage: outcome.usage,
            },
        ),
    };
    assert(last@.body->Assistant_0.tool_calls =~= Seq::<CallView>::empty());
    messages.push(last);
    let delta: Vec<Message> = messages.split_off(watermark);
    assert(views(delta@) =~= all.skip(watermark as int).push(last@));
    RunOutcome { reply, images: saved.paths, image_errors: saved.failures, delta }
}

/// How a round ended.
pub enum RoundEnd {
    /// The model is done: this is its reply.
    Reply(LoopOutcome),
    /// The model asked for calls.
    Calls(Vec<ToolCall>),
}

/// The tool loop between two steps of the outside: the conversation so far, the rounds spent, the two caps and
/// the accounting.
///
/// A round is [`ToolLoop::begin_round`], [`ToolLoop::mount`], the request, [`ToolLoop::take_round`], and then
/// either [`ToolLoop::take_reply`] or the calls and [`ToolLoop::take_results`].
pub struct ToolLoop {
    /// The conversation.
    pub history: Vec<Message>,
    /// The rounds this loop completed.
    pub rounds: u32,
    /// The cap of THIS loop.
    pub max_turns: Option<u32>,
    /// The budget of the whole run.
    pub budget: Option<TurnBudget>,
    /// The accounting.
    pub rec: RunRecorder,
}

/// What a [`ToolLoop`] holds.
pub struct LoopView {
    pub history: Seq<MessageView>,
    pub rounds: u32,
    pub max_turns: Option<u32>,
    pub left: Option<nat>,
    pub cap: u32,
    pub rec: RecordView,
}

impl View for ToolLoop {
    type V = LoopView;

    open spec fn view(&self) -> LoopView {
        LoopView {
            history: views(self.history@),
            rounds: self.rounds,
            max_turns: self.max_turns,
            left: left_of(self.budget),
            cap: cap_of(self.budget),
            rec: self.rec@,
        }
    }
}

/// One more round, as far as 32 bits count.
pub open spec fn next_round(n: u32) -> u32 {
    if n < u32::MAX {
        (n + 1) as u32
    } else {
        n
    }
}

/// What beginning a round does: the loop after it, and whether the request may be made. A cancelled run fails
/// before anything; then the notices of what finished in the background enter the conversation; then the
/// loop's own cap and the run's budget are held to, in that order.
pub open spec fn begun(l: LoopView, cancelled: bool, notices: Seq<Seq<char>>) -> (
    LoopView,
    Result<bool, ChatError>,
) {
    let told = LoopView { history: l.history + notice_messages(notices), ..l };
    if cancelled {
        (l, Err(ChatError::Interrupted))
    } else if l.max_turns == Some(l.rounds) {
        (told, Err(ChatError::LocalCap { turns: l.rounds }))
    } else if l.left == Some(0nat) {
        (told, Err(ChatError::SharedCap { turns: l.cap }))
    } else {
        (LoopView { left: after_claim(l.left), ..told }, Ok(l.rounds > 0))
    }
}

/// A loop with a cap of its own begins no round beyond it, and one that is under it and under the run's budget
/// is never held back.
pub proof fn caps_hold(l: LoopView, notices: Seq<Seq<char>>)
    ensures
        begun(l, false, notices).1 is Ok <==> l.max_turns != Some(l.rounds) && l.left != Some(0nat),
        begun(l, false, notices).1 is Err ==> begun(l, false, notices).0.left == l.left,
        begun(l, true, notices) == (l, Err::<bool, ChatError>(ChatError::Interrupted)),
{
}

/// The rounds a loop with a cap can begin before it is refused.
pub open spec fn rounds_begun(rounds: u32, cap: u32, tries: nat) -> nat
    decreases tries,
{
    if tries == 0 || rounds == cap {
        0
    } else {
        1 + rounds_begun(next_round(rounds), cap, (tries - 1) as nat)
    }
}

/// A fresh loop with a cap begins exactly as many rounds as the cap says.
pub proof fn loop_spends_exactly_its_cap(rounds: u32, cap: u32, tries: nat)
    requires
        rounds <= cap,
    ensures
        rounds_begun(rounds, cap, tries) == if tries <= cap - rounds {
            tries
        } else {
            (cap - rounds) as nat
        },
    decreases tries,
{
    if tries > 0 && rounds < cap {
        loop_spends_exactly_its_cap(next_round(rounds), cap, (tries - 1) as nat);
    }
}

/// Appends a message.
fn push_message(history: &mut Vec<Message>, m: Message)
    ensures
        views(final(history)@) == views(old(history)@).push(m@),
{
    history.push(m);
    assert(views(history@) =~= views(old(history)@).push(m@));
}

impl ToolLoop {
    /// Begins a round. `Ok` says whether the advertised tools are to be asked for again: they are live from the
    /// second round on.
    pub fn begin_round(&mut self, cancelled: bool, notices: Vec<String>) -> (r: Result<
        bool,
        ChatError,
    >)
        ensures
            final(self)@ == begun(old(self)@, cancelled, strs(notices@)).0,
            r == begun(old(self)@, cancelled, strs(notices@)).1,
    {
        if cancelled {
            return Err(ChatError::Interrupted);
        }
        let ghost before = views(self.history@);
        let ghost told = notice_messages(strs(notices@));
        assert(views(self.history@) =~= before + told.take(0));
        for i in 0..notices.len()
            invariant
                told == notice_messages(strs(notices@)),
                views(self.history@) == before + told.take(i as int),
                self.rounds == old(self).rounds,
                self.max_turns == old(self).max_turns,
                self.budget == old(self).budget,
                self.rec == old(self).rec,
        {
            let m: Message = Message::notice(notices[i].clone());
            assert(told[i as int] == m@);
            push_message(&mut self.history, m);
            assert(before + told.take(i + 1) =~= (before + told.take(i as int)).push(
                told[i as int],
            ));
        }
        assert(told.take(told.len() as int) =~= told);
        if let Some(cap) = self.max_turns {
            if self.rounds == cap {
                return Err(ChatError::LocalCap { turns: cap });
            }
        }
        let cap: u32 = turn_limit(&self.budget);
        if !take_turn(&mut self.budget) {
            return Err(ChatError::SharedCap { turns: cap });
        }
        Ok(self.rounds > 0)
    }

    /// Mounts what a search loaded: its definitions enter the conversation.
    pub fn mount(&mut self, pending: Vec<ToolDef>)
        ensures
            final(self)@ == if pending@.len() == 0 {
                old(self)@
            } else {
                LoopView {
                    history: old(self)@.history.push(
                        plain_message(Seq::empty(), BodyView::SystemTools(views(pending@))),
                    ),
                    ..old(self)@
                }
            },
    {
        if pending.len() > 0 {
            push_message(&mut self.history, Message::system_tools(pending));
        }
    }

    /// Takes what the model said: it is accounted for, and either ends the loop or asks for calls, which enter
    /// the conversation with what the round cost.
    pub fn take_round(&mut self, round: RoundResult) -> (r: RoundEnd)
        requires
            addable(old(self)@.rec.total, usage_or_none(round.usage)),
        ensures
            final(self)@.rec == observed(
                old(self)@.rec,
                round.usage,
                names_of(views(round.tool_calls@)),
            ),
            final(self)@ == (LoopView {
                rec: final(self)@.rec,
                history: if round.tool_calls@.len() == 0 {
                    old(self)@.history
                } else {
                    old(self)@.history.push(calls_message(round))
                },
                ..old(self)@
            }),
            match r {
                RoundEnd::Reply(o) => round.tool_calls@.len() == 0 && o@ == round_outcome(round),
                RoundEnd::Calls(calls) => round.tool_calls@.len() > 0 && views(calls@) == views(
                    round.tool_calls@,
                ),
            },
    {
        self.rec.observe(round.usage, tool_names(&round.tool_calls));
        if round.tool_calls.len() == 0 {
            let content: String = if round.content.as_str().is_empty()
                && !round.reasoning.as_str().is_empty() {
                round.reasoning.clone()
            } else {
                round.content
            };
            return RoundEnd::Reply(
                LoopOutcome {
                    content,
                    reasoning: round.reasoning,
                    images: round.images,
                    usage: round.usage,
                    raw_content: round.raw_content,
                },
            );
        }
        let calls: Vec<ToolCall> = copy_all(&round.tool_calls);
        let m: Message = Message::assistant(
            round.content,
            AssistantBody {
                reasoning: String::new(),
                tool_calls: round.tool_calls,
                raw_content: round.raw_content,
                usage: round.usage,
            },
        );
        push_message(&mut self.history, m);
        RoundEnd::Calls(calls)
    }

    /// Takes the reply of a round without calls. It ends the loop — unless a background job was waited for and
    /// its notice is here: then the reply and the notice enter the conversation, and one more round follows.
    pub fn take_reply(&mut self, outcome: LoopOutcome, job: Option<String>) -> (r: Option<
        LoopOutcome,
    >)
        ensures
            match job {
                None => r == Some(outcome) && final(self)@ == old(self)@,
                Some(notice) => r is None && final(self)@ == (LoopView {
                    history: old(self)@.history.push(reply_message(outcome@)).push(
                        plain_message(notice@, BodyView::Notice),
                    ),
                    rounds: next_round(old(self)@.rounds),
                    ..old(self)@
                }),
            },
    {
        match job {
            None => Some(outcome),
            Some(notice) => {
                let reply: Message = Message::assistant(
                    outcome.content,
                    AssistantBody {
                        reasoning: outcome.reasoning,
                        tool_calls: Vec::new(),
                        raw_content: outcome.raw_content,
                        usage: outcome.usage,
                    },
                );
                assert(reply@.body->Assistant_0.tool_calls =~= Seq::<CallView>::empty());
                push_message(&mut self.history, reply);
                push_message(&mut self.history, Message::notice(notice));
                self.count_round();
                None
            },
        }
    }

    /// Takes what the calls of a round gave, one result for each call in call order, and completes the round.
    pub fn take_results(&mut self, calls: &Vec<ToolCall>, results: &Vec<(String, bool)>)
        requires
            calls@.len() == results@.len(),
        ensures
            final(self)@ == (LoopView {
                history: old(self)@.history + result_messages(views(calls@), results@),
                rounds: next_round(old(self)@.rounds),
                ..old(self)@
            }),
    {
        let ghost before = views(self.history@);
        let ghost given = result_messages(views(calls@), results@);
        assert(views(self.history@) =~= before + given.take(0));
        for i in 0..calls.len()
            invariant
                calls@.len() == results@.len(),
                given == result_messages(views(calls@), results@),
                views(self.history@) == before + given.take(i as int),
                self.rounds == old(self).rounds,
                self.max_turns == old(self).max_turns,
                self.budget == old(self).budget,
                self.rec == old(self).rec,
        {
            let m: Message = Message::tool_result(&calls[i], results[i].0.clone(), results[i].1);
            assert(given[i as int] == m@);
            push_message(&mut self.history, m);
            assert(before + given.take(i + 1) =~= (before + given.take(i as int)).push(
                given[i as int],
            ));
        }
        assert(given.take(given.len() as int) =~= given);
        self.count_round();
    }

    /// Counts one round.
    fn count_round(&mut self)
        ensures
            final(self)@ == (LoopView { rounds: next_round(old(self)@.rounds), ..old(self)@ }),
            final(self).history == old(self).history,
    {
        if self.rounds < 0xffff_ffff {
            self.rounds = self.rounds + 1;
        }
    }
}

/// Whether `r` can be what comes of a call at its host: a call that needs approval runs only when the host allows
/// it, and the model reads the host's own words if not.
pub open spec fn gated<A: Approver>(
    host: QuietHost<A>,
    call: ToolCall,
    requires_approval: bool,
    detail: &str,
    r: Option<String>,
) -> bool {
    match r {
        None => !requires_approval || exists|why: String| host.says(&call, detail, (true, why)),
        Some(why) => requires_approval && host.says(&call, detail, (false, why)),
    }
}

/// Whether a call runs, or what the model reads in its place.
pub fn gate_call<A: Approver>(
    host: &QuietHost<A>,
    call: &ToolCall,
    requires_approval: bool,
    detail: &str,
) -> (r: Option<String>)
    ensures
        gated(*host, *call, requires_approval, detail, r),
{
    if !requires_approval {
        return None;
    }
    let (allowed, why) = host.ask_approval(call, detail);
    if allowed {
        None
    } else {
        Some(why)
    }
}

/// Where nobody is there to ask, exactly the calls that need approval are refused, and the model reads how to
/// permit them.
pub proof fn nobody_refuses<A: Approver>(
    host: QuietHost<A>,
    call: ToolCall,
    requires_approval: bool,
    detail: &str,
    r: Option<String>,
)
    requires
        host.approve is None,
        gated(host, call, requires_approval, detail, r),
    ensures
        r is Some == requires_approval,
        r matches Some(why) ==> why@ == refusal(call@.name),
{
}

/// A round keeps everything that was said before it: the conversation of a loop only grows.
pub proof fn conversation_only_grows(
    l: LoopView,
    cancelled: bool,
    notices: Seq<Seq<char>>,
    calls: Seq<CallView>,
    results: Seq<(String, bool)>,
)
    ensures
        ({
            let after = begun(l, cancelled, notices).0.history;
            &&& l.history.len() <= after.len()
            &&& after.take(l.history.len() as int) == l.history
        }),
        (l.history + result_messages(calls, results)).take(l.history.len() as int) == l.history,
        (l.history + result_messages(calls, results)).len() == l.history.len() + calls.len(),
{
    assert(l.history.take(l.history.len() as int) =~= l.history);
    assert((l.history + notice_messages(notices)).take(l.history.len() as int) =~= l.history);
    assert((l.history + result_messages(calls, results)).take(l.history.len() as int)
        =~= l.history);
}

} // verus!
