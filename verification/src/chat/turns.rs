//! The limits of a run: its turn budget, and the slot a tool posts its display artifact to.

use vstd::prelude::*;

verus! {

/// `--max-turns` folded into a cap: `None` (unlimited) for what is not positive, and for what is beyond 32
/// bits.
pub fn turn_cap(n: i64) -> (r: Option<u32>)
    ensures
        r == if 0 < n <= u32::MAX {
            Some(n as u32)
        } else {
            None
        },
{
    if 0 < n && n <= 0xffff_ffff {
        Some(n as u32)
    } else {
        None
    }
}

/// The run's `--max-turns` pool.
pub struct TurnBudget {
    remaining: u32,
    total: u32,
}

impl TurnBudget {
    /// The rounds that are left.
    pub closed spec fn left(&self) -> nat {
        self.remaining as nat
    }

    /// The cap the run was given.
    pub closed spec fn limit(&self) -> u32 {
        self.total
    }

    /// A budget of `cap` rounds.
    pub fn new(cap: u32) -> (r: TurnBudget)
        ensures
            r.left() == cap,
            r.limit() == cap,
    {
        TurnBudget { remaining: cap, total: cap }
    }

    /// Claims one round; false once nothing remains.
    pub fn take(&mut self) -> (r: bool)
        ensures
            claimed(*old(self), r, *final(self)),
    {
        if self.remaining == 0 {
            return false;
        }
        self.remaining -= 1;
        true
    }

    /// The cap the run was given.
    pub fn cap(&self) -> (r: u32)
        ensures
            r == self.limit(),
    {
        self.total
    }
}

/// What a claim makes of a budget: it is granted if and only if a round is left, and then one less is.
pub open spec fn claimed(pre: TurnBudget, granted: bool, post: TurnBudget) -> bool {
    &&& granted == (pre.left() > 0)
    &&& post.left() == if granted {
        (pre.left() - 1) as nat
    } else {
        0
    }
    &&& post.limit() == pre.limit()
}

/// How many of the first `n` answers grant a claim.
pub open spec fn grants(answers: Seq<bool>, n: int) -> nat
    decreases n,
{
    if n <= 0 || n > answers.len() {
        0
    } else {
        grants(answers, n - 1) + if answers[n - 1] {
            1nat
        } else {
            0
        }
    }
}

/// Claims on one budget, in the order in which they take effect, whoever makes them: exactly as many are granted as
/// the cap allows, once one is refused every later one is, and the cap stays what it was.
pub proof fn claims_are_granted_up_to_the_cap(
    cap: u32,
    budgets: Seq<TurnBudget>,
    answers: Seq<bool>,
    n: int,
)
    requires
        budgets.len() == answers.len() + 1,
        budgets[0].left() == cap,
        budgets[0].limit() == cap,
        forall|i: int|
            0 <= i < answers.len() ==> #[trigger] claimed(budgets[i], answers[i], budgets[i + 1]),
        0 <= n <= answers.len(),
    ensures
        grants(answers, n) == if n <= cap {
            n
        } else {
            cap as int
        },
        budgets[n].left() == if n <= cap {
            cap - n
        } else {
            0
        },
        budgets[n].limit() == cap,
        forall|i: int| 0 <= i < n ==> #[trigger] answers[i] == (i < cap),
    decreases n,
{
    if n > 0 {
        claims_are_granted_up_to_the_cap(cap, budgets, answers, n - 1);
        assert(claimed(budgets[n - 1], answers[n - 1], budgets[n - 1 + 1]));
    }
}

/// The rounds that are left of a budget; `None` is unlimited.
pub open spec fn left_of(budget: Option<TurnBudget>) -> Option<nat> {
    match budget {
        Some(b) => Some(b.left()),
        None => None,
    }
}

/// The cap of a budget; 0 without one.
pub open spec fn cap_of(budget: Option<TurnBudget>) -> u32 {
    match budget {
        Some(b) => b.limit(),
        None => 0,
    }
}

/// What is left after one claim.
pub open spec fn after_claim(left: Option<nat>) -> Option<nat> {
    match left {
        Some(n) => if n > 0 {
            Some((n - 1) as nat)
        } else {
            Some(0)
        },
        None => None,
    }
}

/// Claims one round; always granted without a budget.
pub fn take_turn(budget: &mut Option<TurnBudget>) -> (r: bool)
    ensures
        r == (left_of(*old(budget)) != Some(0nat)),
        left_of(*final(budget)) == after_claim(left_of(*old(budget))),
        cap_of(*final(budget)) == cap_of(*old(budget)),
{
    match budget {
        Some(b) => b.take(),
        None => true,
    }
}

/// The cap of a budget; 0 without one.
pub fn turn_limit(budget: &Option<TurnBudget>) -> (r: u32)
    ensures
        r == cap_of(*budget),
{
    match budget {
        Some(b) => b.cap(),
        None => 0,
    }
}

/// What an artifact shows.
#[derive(Clone, Copy, Debug, PartialEq, Eq, Structural)]
pub enum ArtifactKind {
    Diff,
    Note,
}

/// Something a tool shows beside its result.
pub struct Artifact {
    pub kind: ArtifactKind,
    pub title: String,
    pub lines: Vec<String>,
}

/// The display slot of one call: the last post wins.
pub struct ArtifactSlot {
    posted: Option<Artifact>,
}

impl Default for ArtifactSlot {
    /// An empty slot.
    fn default() -> (r: ArtifactSlot)
        ensures
            r.held() is None,
    {
        ArtifactSlot { posted: None }
    }
}

impl ArtifactSlot {
    /// What the slot holds.
    pub closed spec fn held(&self) -> Option<Artifact> {
        self.posted
    }

    /// Stores `a`, replacing any earlier post.
    pub fn post(&mut self, a: Artifact)
        ensures
            posted(*final(self), a),
    {
        self.posted = Some(a);
    }

    /// Drains the slot.
    pub fn take(&mut self) -> (r: Option<Artifact>)
        ensures
            drained(*old(self), r, *final(self)),
    {
        self.posted.take()
    }
}

/// What a post makes of a slot: it holds what was posted.
pub open spec fn posted(post: ArtifactSlot, a: Artifact) -> bool {
    post.held() == Some(a)
}

/// What draining a slot gives and makes of it: what it held, and nothing.
pub open spec fn drained(pre: ArtifactSlot, r: Option<Artifact>, post: ArtifactSlot) -> bool {
    &&& r == pre.held()
    &&& post.held() is None
}

/// Of the posts to one slot since it was empty, in the order in which they take effect, whoever makes them, the last
/// one is what draining it gives; and then it is empty until the next post.
pub proof fn last_post_wins(
    slots: Seq<ArtifactSlot>,
    posts: Seq<Artifact>,
    first: Option<Artifact>,
    between: ArtifactSlot,
    second: Option<Artifact>,
    after: ArtifactSlot,
)
    requires
        slots.len() == posts.len() + 1,
        slots[0].held() is None,
        forall|i: int| 0 <= i < posts.len() ==> posted(slots[i + 1], #[trigger] posts[i]),
        drained(slots.last(), first, between),
        drained(between, second, after),
    ensures
        first == if posts.len() == 0 {
            None
        } else {
            Some(posts.last())
        },
        second is None,
{
    if posts.len() > 0 {
        assert(posted(slots[posts.len() - 1 + 1], posts[posts.len() - 1]));
    }
}

} // verus!
