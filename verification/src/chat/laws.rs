//! What a run keeps: which message answers which call, where a conversation begins and how it grows, and what is
//! reported of it.

use vstd::prelude::*;
use vstd::string::*;

use crate::chat::batch::{run_end, run_end_within, step_end};
use crate::chat::execute::{
    awaits, planned, replied, sound, step, told, ActionView, LoopEvent, PlanView, StageView,
};
use crate::chat::images::{
    base_name, failed_saves, image_file, images_in, newest_images, newest_user, saved_files,
    saved_paths,
};
use crate::chat::once::{lines_of, printed, settled, IMAGE_SAVED_PREFIX};
use crate::chat::report::{addable, added, record_of, tokens, usage_of, Observation, TokenUsage};
use crate::chat::run::{begun, opening, result_messages, LoopView, RoundResult, RunOutcome};
use crate::headless::error::ChatError;
use crate::message::{is_image_file, BodyView, CallView, FileView, MessageView, Usage};

verus! {

// ---------------------------------------------------------------- the conversation

/// A run begins with the imported history as it is, in order, and ends with what the user says now; between them
/// stands the system prompt, where there is one and no history. So what lies past the imported history is what
/// this turn added.
pub proof fn a_run_opens_with_its_history(
    history: Seq<MessageView>,
    system: Seq<char>,
    message: Seq<char>,
)
    ensures
        ({
            let o = opening(history, system, message);
            let prompted = history.len() == 0 && system.len() > 0;
            &&& o.len() == history.len() + if prompted { 2int } else { 1 }
            &&& forall|i: int| 0 <= i < history.len() ==> #[trigger] o[i] == history[i]
            &&& o.last().content == message
            &&& o.last().body == BodyView::User
            &&& o.last().attachments.len() == 0
            &&& prompted ==> o[0].content == system && o[0].body == BodyView::System
                && o[0].attachments.len() == 0
        }),
{
}

/// Each call of a round is answered by its own result, in call order: the conversation grows by one message for
/// each call, which carries the id and the name of that call and what it gave, and nothing before it changes.
pub proof fn results_answer_their_calls(l: LoopView, p: PlanView)
    requires
        p.results.len() == p.calls.len(),
    ensures
        ({
            let (after, stage, action) = planned(l, p);
            let old_len = l.history.len();
            &&& stage is Top
            &&& action is Poll
            &&& after.history.len() == old_len + p.calls.len()
            &&& forall|i: int| 0 <= i < old_len ==> #[trigger] after.history[i] == l.history[i]
            &&& forall|i: int| #![trigger p.calls[i]]
                0 <= i < p.calls.len() ==> {
                    let m = after.history[old_len + i];
                    &&& m.body == BodyView::ToolResult(p.calls[i].id, p.calls[i].name, p.results[i].1)
                    &&& m.content == p.results[i].0@
                    &&& m.attachments.len() == 0
                }
            &&& l.rounds < u32::MAX ==> after.rounds == l.rounds + 1
            &&& after.max_turns == l.max_turns && after.left == l.left && after.cap == l.cap
            &&& after.rec == l.rec
        }),
{
}

/// The ids that are answered in a round are exactly the ids that were asked for, in order.
pub proof fn every_id_is_answered(calls: Seq<CallView>, results: Seq<(String, bool)>)
    requires
        results.len() == calls.len(),
    ensures
        result_messages(calls, results).len() == calls.len(),
        forall|i: int| #![trigger calls[i]]
            0 <= i < calls.len() ==> {
                let m = result_messages(calls, results)[i];
                &&& m.body matches BodyView::ToolResult(id, name, is_error) && id == calls[i].id
                    && name == calls[i].name && is_error == results[i].1
                &&& m.content == results[i].0@
                &&& m.attachments.len() == 0
            },
{
}

/// A round that begins tells the notices first, each as a message of its own in order, and spends one turn of the
/// shared budget; the tools are asked for again from the second round on.
pub proof fn a_round_begins_with_its_notices(l: LoopView, notices: Seq<Seq<char>>)
    ensures
        ({
            let (after, r) = begun(l, false, notices);
            let old_len = l.history.len();
            &&& after.history.len() == old_len + notices.len()
            &&& forall|i: int| 0 <= i < old_len ==> #[trigger] after.history[i] == l.history[i]
            &&& forall|i: int| #![trigger notices[i]]
                0 <= i < notices.len() ==> after.history[old_len + i].content == notices[i]
                    && after.history[old_len + i].body == BodyView::Notice
                    && after.history[old_len + i].attachments.len() == 0
            &&& after.rounds == l.rounds && after.max_turns == l.max_turns && after.cap == l.cap
            &&& after.rec == l.rec
            &&& r matches Ok(again) ==> again == (l.rounds >= 1) && (l.left matches Some(n)
                ==> n > 0 && after.left == Some((n - 1) as nat)) && (l.left is None
                ==> after.left is None)
            &&& l.max_turns == Some(l.rounds) ==> r
                == Err::<bool, ChatError>(ChatError::LocalCap { turns: l.rounds })
            &&& l.max_turns != Some(l.rounds) && l.left == Some(0nat) ==> r
                == Err::<bool, ChatError>(ChatError::SharedCap { turns: l.cap })
        }),
{
}

/// What the model says with its calls stands in the conversation as one message, with every call as it was asked
/// for; those calls are what is run next, and the round is on the record.
pub proof fn calls_are_kept_as_asked(l: LoopView, round: RoundResult)
    requires
        round.tool_calls@.len() > 0,
    ensures
        ({
            let (after, stage, action) = told(l, round);
            let m = after.history.last();
            &&& after.history.len() == l.history.len() + 1
            &&& forall|i: int|
                0 <= i < l.history.len() ==> #[trigger] after.history[i] == l.history[i]
            &&& m.content == round.content@
            &&& m.attachments.len() == 0
            &&& m.body matches BodyView::Assistant(a) && a.tool_calls.len()
                == round.tool_calls@.len() && a.usage == round.usage && (forall|i: int|
                0 <= i < round.tool_calls@.len() ==> (#[trigger] a.tool_calls[i]).id
                    == round.tool_calls@[i].id@ && a.tool_calls[i].name
                    == round.tool_calls@[i].name@ && a.tool_calls[i].arguments
                    == round.tool_calls@[i].arguments@) && (round.raw_content matches Some(raw)
                ==> a.raw_content == Some(raw@)) && (round.raw_content is None
                ==> a.raw_content is None)
            &&& stage matches StageView::Splitting(calls) && calls.len() == round.tool_calls@.len()
                && forall|i: int|
                0 <= i < calls.len() ==> #[trigger] calls[i] == round.tool_calls@[i]@
            &&& action is SplitCalls
            &&& after.rec.rounds.len() == l.rec.rounds.len() + 1
            &&& forall|i: int|
                0 <= i < l.rec.rounds.len() ==> #[trigger] after.rec.rounds[i] == l.rec.rounds[i]
            &&& after.rec.rounds.last().tools.len() == round.tool_calls@.len()
            &&& forall|i: int| #![trigger round.tool_calls@[i]]
                0 <= i < round.tool_calls@.len() ==> after.rec.rounds.last().tools[i]
                    == round.tool_calls@[i].name@
            &&& after.rounds == l.rounds && after.left == l.left && after.max_turns == l.max_turns
        }),
{
}

/// A round without calls is the reply: the conversation stays, and the outcome has what the model said, or its
/// reasoning where it said nothing else.
pub proof fn a_reply_is_what_the_model_said(l: LoopView, round: RoundResult)
    requires
        round.tool_calls@.len() == 0,
    ensures
        ({
            let (after, stage, action) = told(l, round);
            &&& after.history == l.history
            &&& after.rec.rounds.len() == l.rec.rounds.len() + 1
            &&& after.rec.rounds.last().tools.len() == 0
            &&& action is WaitJob
            &&& stage matches StageView::Replying(o) && (round.content@.len() > 0 ==> o.content
                == round.content@) && (round.content@.len() == 0 ==> o.content == round.reasoning@)
                && o.reasoning == round.reasoning@ && o.usage == round.usage && o.images.len()
                == round.images@.len() && (forall|i: int|
                0 <= i < o.images.len() ==> #[trigger] o.images[i] == round.images@[i]@)
        }),
{
    assert(round.content@.len() == 0 && round.reasoning@.len() == 0 ==> round.content@
        =~= round.reasoning@);
}

/// A reply ends the loop with what the model said; where a background job was still running, the reply and then
/// the notice of the job join the conversation, and another round follows.
pub proof fn a_reply_ends_the_loop(l: LoopView, o: crate::chat::run::OutcomeView, job: Option<String>)
    ensures
        job is None ==> replied(l, o, job) == (l, StageView::Over, ActionView::Finished(Ok(o))),
        job matches Some(notice) ==> ({
            let (after, stage, action) = replied(l, o, job);
            let n = l.history.len() as int;
            &&& stage is Top && action is Poll
            &&& after.history.len() == n + 2
            &&& forall|i: int| 0 <= i < n ==> #[trigger] after.history[i] == l.history[i]
            &&& after.history[n].content == o.content
            &&& after.history[n].body matches BodyView::Assistant(a) && a.tool_calls.len() == 0
                && a.reasoning == o.reasoning && a.usage == o.usage && a.raw_content
                == o.raw_content
            &&& after.history[n + 1].content == notice@
            &&& after.history[n + 1].body == BodyView::Notice
            &&& l.rounds < u32::MAX ==> after.rounds == l.rounds + 1
        }),
{
}

/// The plan that a stage goes on with.
pub open spec fn plan_at(s: StageView) -> Option<PlanView> {
    match s {
        StageView::Batching(p, _) => Some(p),
        StageView::Gating(p) => Some(p),
        StageView::Running(p) => Some(p),
        _ => None,
    }
}

/// A call that may not run is never run: its result is the refusal, as an error, and the calls after it go on.
pub proof fn a_refused_call_is_answered(l: LoopView, p: PlanView, why: String)
    requires
        sound(StageView::Gating(p)),
    ensures
        ({
            let (after, stage, action) = step(l, StageView::Gating(p), LoopEvent::Gated(Some(why)));
            let at = p.results.len() as int;
            &&& !(action is Run)
            &&& plan_at(stage) matches Some(q) ==> q.calls == p.calls && q.parallel == p.parallel
                && q.results.len() == at + 1 && q.results[at] == (why, true) && q.results.take(at)
                == p.results && after == l
            &&& plan_at(stage) is None ==> at + 1 == p.calls.len() && after.history.len()
                == l.history.len() + p.calls.len() && after.history.last().content == why@
                && after.history.last().body == BodyView::ToolResult(
                p.calls[at].id,
                p.calls[at].name,
                true,
            )
        }),
{
    let q = PlanView { results: p.results.push((why, true)), ..p };
    assert(q.results.take(p.results.len() as int) =~= p.results);
}

/// A call that may run is the next one to run, and it alone.
pub proof fn an_approved_call_runs(l: LoopView, p: PlanView)
    ensures
        step(l, StageView::Gating(p), LoopEvent::Gated(None)) == (
            l,
            StageView::Running(p),
            ActionView::Run(p.results.len() as int),
        ),
{
}

/// What calls gave is kept behind what the calls before them gave, in the order it came.
pub proof fn results_are_kept_in_order(l: LoopView, s: StageView, results: Vec<(String, bool)>)
    requires
        sound(s),
        s is Batching || s is Running,
        awaits(l, s, LoopEvent::Ran(results)),
    ensures
        ({
            let p = plan_at(s)->0;
            let n = p.results.len() as int;
            let (after, stage, _) = step(l, s, LoopEvent::Ran(results));
            &&& plan_at(stage) matches Some(q) ==> q.calls == p.calls && q.results.len() == n
                + results@.len() && (forall|i: int|
                0 <= i < n ==> #[trigger] q.results[i] == p.results[i]) && (forall|i: int|
                #![trigger results@[i]]
                0 <= i < results@.len() ==> q.results[n + i] == results@[i])
            &&& plan_at(stage) is None ==> after.history.len() == l.history.len() + p.calls.len()
                && forall|i: int| #![trigger results@[i]]
                0 <= i < results@.len() ==> {
                    let m = after.history[l.history.len() + n + i];
                    m.content == results@[i].0@ && m.body == BodyView::ToolResult(
                        p.calls[n + i].id,
                        p.calls[n + i].name,
                        results@[i].1,
                    )
                }
        }),
{
    let p = plan_at(s)->0;
    run_end_within(p.parallel, p.results.len() as int);
}

/// Nothing that was said is changed or forgotten: whatever an action gave, the conversation only grows.
pub proof fn no_answer_rewrites_the_conversation(l: LoopView, s: StageView, e: LoopEvent)
    requires
        sound(s),
        awaits(l, s, e),
    ensures
        step(l, s, e).0.history.len() >= l.history.len(),
        forall|i: int|
            0 <= i < l.history.len() ==> #[trigger] step(l, s, e).0.history[i] == l.history[i],
{
}

/// What a search loaded joins the conversation as one message with every tool of it; a search that loaded nothing
/// leaves it as it was.
pub proof fn loaded_tools_are_mounted(l: LoopView, defs: Vec<crate::message::ToolDef>)
    ensures
        ({
            let (after, stage, action) = step(l, StageView::Mounting, LoopEvent::Pending(defs));
            &&& stage is Requesting && action is Request
            &&& defs@.len() == 0 ==> after == l
            &&& defs@.len() > 0 ==> after.history.len() == l.history.len() + 1
                && after.history.last().content.len() == 0 && (
            after.history.last().body matches BodyView::SystemTools(v) && v.len() == defs@.len()
                && forall|i: int| 0 <= i < v.len() ==> #[trigger] v[i] == defs@[i]@)
        }),
{
}

/// A failed request ends the loop with the provider's own words.
pub proof fn a_failed_request_ends_the_loop(l: LoopView, text: String)
    ensures
        step(l, StageView::Requesting, LoopEvent::Answered(Err(text))) == (
            l,
            StageView::Over,
            ActionView::Finished(Err(ChatError::Provider(text))),
        ),
{
}

// ---------------------------------------------------------------- batches

/// Calls that may run beside each other all do: a run goes on until a call that may not, or the end.
pub proof fn runs_are_maximal(parallel: Seq<bool>, i: int)
    requires
        0 <= i <= parallel.len(),
    ensures
        forall|k: int| i <= k < run_end(parallel, i) ==> parallel[k],
        i <= run_end(parallel, i) <= parallel.len(),
        run_end(parallel, i) < parallel.len() ==> !parallel[run_end(parallel, i)],
        step_end(parallel, i) == if run_end(parallel, i) >= i + 2 {
            run_end(parallel, i)
        } else {
            i + 1
        },
    decreases parallel.len() - i,
{
    run_end_within(parallel, i);
    if i < parallel.len() && parallel[i] {
        runs_are_maximal(parallel, i + 1);
    }
}

// ---------------------------------------------------------------- the record

/// Tokens are added field by field, and converting them back and forth changes nothing.
pub proof fn tokens_add_up(t: TokenUsage, u: Usage)
    ensures
        tokens(u).input_tokens == u.input,
        tokens(u).output_tokens == u.output,
        tokens(u).cache_read_tokens == u.cache_read,
        tokens(u).cache_write_tokens == u.cache_write,
        tokens(u).total_tokens == u.total,
        usage_of(tokens(u)) == u,
        tokens(usage_of(t)) == t,
        addable(t, u) ==> {
            let s = added(t, u);
            &&& s.input_tokens == t.input_tokens + u.input
            &&& s.output_tokens == t.output_tokens + u.output
            &&& s.cache_read_tokens == t.cache_read_tokens + u.cache_read
            &&& s.cache_write_tokens == t.cache_write_tokens + u.cache_write
            &&& s.total_tokens == t.total_tokens + u.total
        },
{
}

/// The record has the rounds in the order in which they were seen, numbered from one, each with the tools it asked
/// for and the tokens it spent.
pub proof fn rounds_are_recorded_in_order(seen: Seq<Observation>, i: int)
    requires
        0 <= i < seen.len() < u32::MAX,
    ensures
        ({
            let r = record_of(seen).rounds;
            &&& r.len() == seen.len()
            &&& r[i].round == i + 1
            &&& r[i].tools == seen[i].tools
            &&& seen[i].usage matches Some(u) ==> r[i].usage.input_tokens == u.input
                && r[i].usage.output_tokens == u.output && r[i].usage.cache_read_tokens
                == u.cache_read && r[i].usage.cache_write_tokens == u.cache_write
                && r[i].usage.total_tokens == u.total
            &&& seen[i].usage is None ==> r[i].usage.total_tokens == 0 && r[i].usage.input_tokens
                == 0 && r[i].usage.output_tokens == 0
        }),
    decreases seen.len(),
{
    recorded_len(seen.drop_last());
    if i < seen.len() - 1 {
        rounds_are_recorded_in_order(seen.drop_last(), i);
        assert(seen.drop_last()[i] == seen[i]);
    }
}

proof fn recorded_len(seen: Seq<Observation>)
    ensures
        record_of(seen).rounds.len() == seen.len(),
    decreases seen.len(),
{
    if seen.len() > 0 {
        recorded_len(seen.drop_last());
    }
}

// ---------------------------------------------------------------- what is printed

/// Lists print one line for each of their texts, in order.
pub proof fn one_line_for_each(lead: Seq<char>, a: Seq<Seq<char>>, b: Seq<Seq<char>>, x: Seq<char>)
    ensures
        lines_of(lead, Seq::empty()).len() == 0,
        lines_of(lead, seq![x]) == lead + x + "\n"@,
        lines_of(lead, a + b) == lines_of(lead, a) + lines_of(lead, b),
    decreases b.len(),
{
    assert(seq![x].drop_last() =~= Seq::<Seq<char>>::empty());
    assert(lines_of(lead, seq![x].drop_last()) =~= Seq::<char>::empty());
    assert(lines_of(lead, seq![x]) =~= lead + x + "\n"@);
    if b.len() == 0 {
        assert(a + b =~= a);
        assert(lines_of(lead, a) + lines_of(lead, b) =~= lines_of(lead, a));
    } else {
        one_line_for_each(lead, a, b.drop_last(), x);
        assert((a + b).drop_last() =~= a + b.drop_last());
        let tail = lead + b.last() + "\n"@;
        assert(lines_of(lead, a) + lines_of(lead, b.drop_last()) + tail =~= lines_of(lead, a) + (
        lines_of(lead, b.drop_last()) + tail));
    }
}

/// A run prints its reply, if it has one, then the saved images, each behind its mark, then what failed.
pub proof fn output_has_reply_images_and_failures(
    reply: Seq<char>,
    images: Seq<Seq<char>>,
    errors: Seq<Seq<char>>,
)
    ensures
        printed(Seq::empty(), Seq::empty(), Seq::empty()).len() == 0,
        reply.len() > 0 ==> printed(reply, images, errors) == reply + "\n"@ + printed(
            Seq::empty(),
            images,
            errors,
        ),
        images.len() > 0 ==> printed(Seq::empty(), images, errors) == IMAGE_SAVED_PREFIX@
            + images.first() + "\n"@ + printed(Seq::empty(), images.drop_first(), errors),
        errors.len() > 0 ==> printed(Seq::empty(), Seq::empty(), errors) == errors.first() + "\n"@
            + printed(Seq::empty(), Seq::empty(), errors.drop_first()),
{
    let none = Seq::<char>::empty();
    let nil = Seq::<Seq<char>>::empty();
    assert(printed(reply, images, errors) =~= if reply.len() > 0 {
        reply + "\n"@ + printed(none, images, errors)
    } else {
        printed(none, images, errors)
    });
    if images.len() > 0 {
        one_line_for_each(IMAGE_SAVED_PREFIX@, seq![images.first()], images.drop_first(), images.first());
        assert(seq![images.first()] + images.drop_first() =~= images);
        assert(printed(none, images, errors) =~= IMAGE_SAVED_PREFIX@ + images.first() + "\n"@
            + printed(none, images.drop_first(), errors));
    }
    if errors.len() > 0 {
        one_line_for_each(none, seq![errors.first()], errors.drop_first(), errors.first());
        assert(seq![errors.first()] + errors.drop_first() =~= errors);
        assert(printed(none, nil, errors) =~= errors.first() + "\n"@ + printed(
            none,
            nil,
            errors.drop_first(),
        ));
    }
}

/// A cancelled run that failed was interrupted; one that succeeded still succeeded, and a failure without a
/// cancellation is its own.
pub proof fn cancelled_failures_are_interruptions(
    result: Result<RunOutcome, ChatError>,
    cancelled: bool,
)
    ensures
        result is Ok ==> settled(result, cancelled) == result,
        result is Err && cancelled ==> settled(result, cancelled) == Err::<RunOutcome, ChatError>(
            ChatError::Interrupted,
        ),
        !cancelled ==> settled(result, cancelled) == result,
{
}

// ---------------------------------------------------------------- images

/// The newest message of the user is one, and none after it is; there is none only where no message is the user's.
pub proof fn newest_user_is_the_last(history: Seq<MessageView>)
    ensures
        ({
            let k = newest_user(history);
            &&& -1 <= k < history.len()
            &&& k >= 0 ==> history[k].body is User
            &&& forall|i: int| k < i < history.len() ==> !((#[trigger] history[i]).body is User)
        }),
    decreases history.len(),
{
    if history.len() > 0 && !(history.last().body is User) {
        newest_user_is_the_last(history.drop_last());
        let k = newest_user(history);
        assert(k >= 0 ==> history.drop_last()[k] == history[k]);
        assert forall|i: int| k < i < history.len() implies !((#[trigger] history[i]).body is User) by {
            if i < history.len() - 1 {
                assert(history.drop_last()[i] == history[i]);
            }
        }
    }
}

/// The images among some files are exactly those whose type is an image, in order.
pub proof fn images_are_kept_in_order(a: Seq<FileView>, b: Seq<FileView>, f: FileView)
    ensures
        images_in(Seq::empty()).len() == 0,
        is_image_file(f) ==> images_in(seq![f]) == seq![f],
        !is_image_file(f) ==> images_in(seq![f]).len() == 0,
        images_in(a + b) == images_in(a) + images_in(b),
    decreases b.len(),
{
    assert(seq![f].drop_last() =~= Seq::<FileView>::empty());
    assert(images_in(seq![f].drop_last()) =~= Seq::<FileView>::empty());
    assert(is_image_file(f) ==> images_in(seq![f]) =~= seq![f]);
    if b.len() == 0 {
        assert(a + b =~= a);
        assert(images_in(a) + images_in(b) =~= images_in(a));
    } else {
        images_are_kept_in_order(a, b.drop_last(), f);
        assert((a + b).drop_last() =~= a + b.drop_last());
        assert((a + b).last() == b.last());
        assert(images_in(a + b) =~= images_in(a) + images_in(b));
    }
}

/// The newest generated images are those of the last message of the model that has any; without such a message
/// there are none.
pub proof fn newest_images_are_of_one_message(history: Seq<MessageView>)
    ensures
        ({
            let found = newest_images(history);
            ||| found.len() == 0 && forall|i: int|
                0 <= i < history.len() && (#[trigger] history[i]).body is Assistant ==> images_in(
                    history[i].attachments,
                ).len() == 0
            ||| exists|k: int|
                0 <= k < history.len() && (#[trigger] history[k]).body is Assistant && found
                    == images_in(history[k].attachments) && found.len() > 0 && forall|i: int|
                    k < i < history.len() && (#[trigger] history[i]).body is Assistant
                        ==> images_in(history[i].attachments).len() == 0
        }),
    decreases history.len(),
{
    if history.len() > 0 {
        let last = history.last();
        let init = history.drop_last();
        if last.body is Assistant && images_in(last.attachments).len() > 0 {
            assert(history[history.len() - 1] == last);
        } else {
            newest_images_are_of_one_message(init);
            let found = newest_images(init);
            if found.len() == 0 {
                if exists|k: int|
                    0 <= k < init.len() && (#[trigger] init[k]).body is Assistant && found
                        == images_in(init[k].attachments) && found.len() > 0 && forall|i: int|
                        k < i < init.len() && (#[trigger] init[i]).body is Assistant ==> images_in(
                            init[i].attachments,
                        ).len() == 0 {
                }
                assert forall|i: int|
                    0 <= i < history.len() && (
                    #[trigger] history[i]).body is Assistant implies images_in(
                    history[i].attachments,
                ).len() == 0 by {
                    if i < init.len() {
                        assert(init[i] == history[i]);
                    }
                }
            } else {
                let k = choose|k: int|
                    0 <= k < init.len() && (#[trigger] init[k]).body is Assistant && found
                        == images_in(init[k].attachments) && found.len() > 0 && forall|i: int|
                        k < i < init.len() && (#[trigger] init[i]).body is Assistant ==> images_in(
                            init[i].attachments,
                        ).len() == 0;
                assert(history[k] == init[k]);
                assert forall|i: int|
                    k < i < history.len() && (
                    #[trigger] history[i]).body is Assistant implies images_in(
                    history[i].attachments,
                ).len() == 0 by {
                    if i < init.len() {
                        assert(init[i] == history[i]);
                    }
                }
            }
        }
    }
}

/// An image's file is named after its time, its place and its type.
pub proof fn image_names_tell_their_images(stamp: Seq<char>, seq: nat, mime: Seq<char>)
    ensures
        ({
            let name = image_file(stamp, seq, mime);
            &&& name.len() >= stamp.len()
            &&& name.take(stamp.len() as int) == stamp
            &&& mime == "image/png"@ || mime == "image/webp"@ || mime == "image/gif"@ ==> mime
                == "image/"@ + crate::chat::images::ext_of(mime)
            &&& mime == "image/jpeg"@ ==> crate::chat::images::ext_of(mime) == "jpg"@
        }),
{
    reveal_strlit("image/");
    reveal_strlit("image/png");
    reveal_strlit("image/webp");
    reveal_strlit("image/gif");
    reveal_strlit("image/jpeg");
    reveal_strlit("png");
    reveal_strlit("webp");
    reveal_strlit("gif");
    let name = image_file(stamp, seq, mime);
    assert(name.take(stamp.len() as int) =~= stamp);
    assert("image/png"@ =~= "image/"@ + "png"@);
    assert("image/webp"@ =~= "image/"@ + "webp"@);
    assert("image/gif"@ =~= "image/"@ + "gif"@);
    assert("image/png"@[6] != "image/webp"@[6]);
    assert("image/png"@[6] != "image/gif"@[6]);
    assert("image/webp"@[6] != "image/gif"@[6]);
    assert("image/jpeg"@[6] != "image/png"@[6]);
    assert("image/jpeg"@[6] != "image/webp"@[6]);
    assert("image/jpeg"@[6] != "image/gif"@[6]);
}

/// A longer run of saves keeps what a shorter one has.
proof fn saves_extend(images: Seq<FileView>, saves: Seq<Result<String, String>>, i: int, n: int)
    requires
        0 <= i <= n <= saves.len() == images.len(),
    ensures
        saved_paths(saves, i).len() <= saved_paths(saves, n).len(),
        saved_paths(saves, n).take(saved_paths(saves, i).len() as int) == saved_paths(saves, i),
        saved_files(images, saves, i).len() == saved_paths(saves, i).len(),
        saved_files(images, saves, n).len() == saved_paths(saves, n).len(),
        saved_files(images, saves, n).take(saved_paths(saves, i).len() as int) == saved_files(
            images,
            saves,
            i,
        ),
        failed_saves(saves, i).len() <= failed_saves(saves, n).len(),
        failed_saves(saves, n).take(failed_saves(saves, i).len() as int) == failed_saves(saves, i),
    decreases n,
{
    if i < n {
        saves_extend(images, saves, i, n - 1);
        let k = saved_paths(saves, i).len() as int;
        assert(saved_paths(saves, n).take(k) =~= saved_paths(saves, n - 1).take(k));
        assert(saved_files(images, saves, n).take(k) =~= saved_files(images, saves, n - 1).take(k));
        let f = failed_saves(saves, i).len() as int;
        assert(failed_saves(saves, n).take(f) =~= failed_saves(saves, n - 1).take(f));
    } else {
        if n > 0 {
            saves_extend(images, saves, n - 1, n - 1);
        }
        assert(saved_paths(saves, n).take(saved_paths(saves, n).len() as int) =~= saved_paths(
            saves,
            n,
        ));
        assert(saved_files(images, saves, n).take(saved_paths(saves, n).len() as int)
            =~= saved_files(images, saves, n));
        assert(failed_saves(saves, n).take(failed_saves(saves, n).len() as int) =~= failed_saves(
            saves,
            n,
        ));
    }
}

/// A saved image has its path and its own data, at one place in both lists, behind the images saved before it; one
/// that was not saved has its line, behind the lines before it.
pub proof fn each_save_has_its_place(
    images: Seq<FileView>,
    saves: Seq<Result<String, String>>,
    i: int,
)
    requires
        0 <= i < saves.len() == images.len(),
    ensures
        ({
            let n = saves.len() as int;
            let k = saved_paths(saves, i).len() as int;
            let f = failed_saves(saves, i).len() as int;
            &&& saves[i] matches Ok(path) ==> k < saved_paths(saves, n).len() && saved_paths(
                saves,
                n,
            )[k] == path@ && saved_files(images, saves, n)[k].data == images[i].data
                && saved_files(images, saves, n)[k].mime_type == images[i].mime_type
                && saved_files(images, saves, n)[k].filename == base_name(path@)
            &&& saves[i] matches Err(e) ==> f < failed_saves(saves, n).len() && failed_saves(
                saves,
                n,
            )[f] == "saving image failed: "@ + e@
        }),
{
    let n = saves.len() as int;
    saves_extend(images, saves, i, n);
    saves_extend(images, saves, i + 1, n);
    let k = saved_paths(saves, i).len() as int;
    let f = failed_saves(saves, i).len() as int;
    if saves[i] is Ok {
        let m = saved_paths(saves, i + 1).len() as int;
        assert(saved_paths(saves, n).take(m)[k] == saved_paths(saves, n)[k]);
        assert(saved_files(images, saves, n).take(m)[k] == saved_files(images, saves, n)[k]);
    } else {
        let m = failed_saves(saves, i + 1).len() as int;
        assert(failed_saves(saves, n).take(m)[f] == failed_saves(saves, n)[f]);
    }
}

} // verus!
