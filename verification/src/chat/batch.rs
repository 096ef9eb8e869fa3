//! Parallel tool-call batches: the maximal run of consecutive parallel-capable calls, and the steps a round's
//! calls are executed in.

use vstd::prelude::*;

use crate::message::ToolCall;

verus! {

/// The end of the maximal run of parallel-capable calls that starts at `i`; `i` itself when the call there is
/// not one.
pub open spec fn run_end(parallel: Seq<bool>, i: int) -> int
    decreases parallel.len() - i,
{
    if i < 0 || i >= parallel.len() || !parallel[i] {
        i
    } else {
        run_end(parallel, i + 1)
    }
}

/// The end of the step that starts at `i`: a run of at least two parallel-capable calls goes out together,
/// any other call alone.
pub open spec fn step_end(parallel: Seq<bool>, i: int) -> int {
    if run_end(parallel, i) - i >= 2 {
        run_end(parallel, i)
    } else {
        i + 1
    }
}

/// A run does not end before it starts, nor after the last call.
pub proof fn run_end_within(parallel: Seq<bool>, i: int)
    requires
        0 <= i <= parallel.len(),
    ensures
        i <= run_end(parallel, i) <= parallel.len(),
        forall|k: int| i <= k < run_end(parallel, i) ==> parallel[k],
    decreases parallel.len() - i,
{
    if i < parallel.len() && parallel[i] {
        run_end_within(parallel, i + 1);
    }
}

/// The steps from `i` on.
pub open spec fn steps_from(parallel: Seq<bool>, i: int) -> Seq<(int, int)>
    decreases parallel.len() - i,
    when 0 <= i
    via steps_from_decreases
{
    if i >= parallel.len() {
        Seq::empty()
    } else {
        seq![(i, step_end(parallel, i))] + steps_from(parallel, step_end(parallel, i))
    }
}

#[via_fn]
proof fn steps_from_decreases(parallel: Seq<bool>, i: int) {
    if 0 <= i < parallel.len() {
        run_end_within(parallel, i);
    }
}

/// The end of the maximal run of consecutive calls from `i` on that support running in parallel; `parallel`
/// says so of each call.
pub fn parallel_run(calls: &Vec<ToolCall>, parallel: &Vec<bool>, i: usize) -> (r: usize)
    requires
        parallel@.len() == calls@.len(),
        i <= calls@.len(),
    ensures
        r == run_end(parallel@, i as int),
        i <= r <= calls@.len(),
{
    let mut j: usize = i;
    while j < calls.len() && parallel[j]
        invariant
            i <= j <= calls.len(),
            parallel@.len() == calls@.len(),
            run_end(parallel@, i as int) == run_end(parallel@, j as int),
        decreases calls.len() - j,
    {
        j += 1;
    }
    j
}

/// The steps the calls of a round are executed in, each as the range of its calls.
pub fn plan_steps(calls: &Vec<ToolCall>, parallel: &Vec<bool>) -> (r: Vec<(usize, usize)>)
    requires
        parallel@.len() == calls@.len(),
    ensures
        Seq::new(r@.len(), |i: int| (r@[i].0 as int, r@[i].1 as int)) == steps_from(parallel@, 0),
{
    let mut r: Vec<(usize, usize)> = Vec::new();
    let mut i: usize = 0;
    let ghost all = steps_from(parallel@, 0);
    assert(Seq::new(r@.len(), |i: int| (r@[i].0 as int, r@[i].1 as int)) + all =~= all);
    while i < calls.len()
        invariant
            i <= calls.len(),
            parallel@.len() == calls@.len(),
            all == steps_from(parallel@, 0),
            Seq::new(r@.len(), |i: int| (r@[i].0 as int, r@[i].1 as int)) + steps_from(
                parallel@,
                i as int,
            ) == all,
        decreases calls.len() - i,
    {
        let j: usize = parallel_run(calls, parallel, i);
        let end: usize = if j - i >= 2 {
            j
        } else {
            i + 1
        };
        let ghost was = Seq::new(r@.len(), |i: int| (r@[i].0 as int, r@[i].1 as int));
        r.push((i, end));
        let ghost now = Seq::new(r@.len(), |i: int| (r@[i].0 as int, r@[i].1 as int));
        assert(now =~= was.push((i as int, end as int)));
        assert(was + (seq![(i as int, end as int)] + steps_from(parallel@, end as int)) =~= now
            + steps_from(parallel@, end as int));
        i = end;
    }
    let ghost now = Seq::new(r@.len(), |i: int| (r@[i].0 as int, r@[i].1 as int));
    assert(now + Seq::<(int, int)>::empty() =~= now);
    r
}

/// The steps cover every call exactly once, in order: the first starts at `i`, each starts where the one before
/// it ended, and the last ends after the last call. A step of more than one call holds parallel-capable calls
/// only.
pub proof fn steps_cover_the_calls(parallel: Seq<bool>, i: int)
    requires
        0 <= i <= parallel.len(),
    ensures
        ({
            let steps = steps_from(parallel, i);
            &&& steps.len() == 0 <==> i == parallel.len()
            &&& steps.len() > 0 ==> steps[0].0 == i && steps.last().1 == parallel.len()
            &&& forall|k: int| 0 <= k < steps.len() ==> (#[trigger] steps[k]).0 < steps[k].1
            &&& forall|k: int| 1 <= k < steps.len() ==> (#[trigger] steps[k]).0 == steps[k - 1].1
            &&& forall|k: int, c: int|
                0 <= k < steps.len() && (#[trigger] steps[k]).0 <= c < steps[k].1 && steps[k].1
                    - steps[k].0 > 1 ==> #[trigger] parallel[c]
        }),
    decreases parallel.len() - i,
{
    if i < parallel.len() {
        run_end_within(parallel, i);
        let end = step_end(parallel, i);
        steps_cover_the_calls(parallel, end);
        let steps = steps_from(parallel, i);
        let rest = steps_from(parallel, end);
        assert(steps =~= seq![(i, end)] + rest);
        assert forall|k: int| 0 <= k < steps.len() implies (#[trigger] steps[k]).0 < steps[k].1 by {
            if k > 0 {
                assert(steps[k] == rest[k - 1]);
            }
        }
        assert forall|k: int| 1 <= k < steps.len() implies (#[trigger] steps[k]).0 == steps[k
            - 1].1 by {
            assert(steps[k] == rest[k - 1]);
            if k > 1 {
                assert(steps[k - 1] == rest[k - 2]);
            }
        }
        assert forall|k: int, c: int|
            0 <= k < steps.len() && (#[trigger] steps[k]).0 <= c < steps[k].1 && steps[k].1
                - steps[k].0 > 1 implies #[trigger] parallel[c] by {
            if k > 0 {
                assert(steps[k] == rest[k - 1]);
            }
        }
        if rest.len() > 0 {
            assert(steps.last() == rest.last());
        } else {
            assert(steps.last() == (i, end));
        }
    }
}

/// The outcome of one call inside a batch.
pub struct BatchOutcome {
    /// The result text for the model.
    pub text: String,
    /// Whether the call failed.
    pub is_error: bool,
    /// How long the call took, in milliseconds.
    pub duration_ms: u64,
}

} // verus!
