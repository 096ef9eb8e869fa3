//! The run report: what each round and the whole run cost.

use vstd::prelude::*;

use crate::map::{copy_all, views, Duplicate};
use crate::message::{no_usage, CallView, ToolCall, Usage};
use crate::provider::{kind_name, ProviderKind};
use crate::text::{copy_strs, own, strs};

verus! {

/// Token usage as reported.
#[derive(Clone, Copy, Debug, PartialEq, Eq, Structural)]
pub struct TokenUsage {
    pub input_tokens: u64,
    pub output_tokens: u64,
    pub cache_read_tokens: u64,
    pub cache_write_tokens: u64,
    pub total_tokens: u64,
}

/// No tokens at all.
pub open spec fn no_tokens() -> TokenUsage {
    tokens(no_usage())
}

/// A usage as reported.
pub open spec fn tokens(u: Usage) -> TokenUsage {
    TokenUsage {
        input_tokens: u.input,
        output_tokens: u.output,
        cache_read_tokens: u.cache_read,
        cache_write_tokens: u.cache_write,
        total_tokens: u.total,
    }
}

/// The usage that a report says.
pub open spec fn usage_of(t: TokenUsage) -> Usage {
    Usage {
        input: t.input_tokens,
        output: t.output_tokens,
        cache_read: t.cache_read_tokens,
        cache_write: t.cache_write_tokens,
        total: t.total_tokens,
    }
}

/// Whether the sum of a report and a usage can be held.
pub open spec fn addable(t: TokenUsage, u: Usage) -> bool {
    &&& t.input_tokens + u.input <= u64::MAX
    &&& t.output_tokens + u.output <= u64::MAX
    &&& t.cache_read_tokens + u.cache_read <= u64::MAX
    &&& t.cache_write_tokens + u.cache_write <= u64::MAX
    &&& t.total_tokens + u.total <= u64::MAX
}

/// The field-wise sum, the total among the fields.
pub open spec fn added(t: TokenUsage, u: Usage) -> TokenUsage {
    TokenUsage {
        input_tokens: (t.input_tokens + u.input) as u64,
        output_tokens: (t.output_tokens + u.output) as u64,
        cache_read_tokens: (t.cache_read_tokens + u.cache_read) as u64,
        cache_write_tokens: (t.cache_write_tokens + u.cache_write) as u64,
        total_tokens: (t.total_tokens + u.total) as u64,
    }
}

impl Default for TokenUsage {
    fn default() -> (r: TokenUsage)
        ensures
            r == no_tokens(),
    {
        TokenUsage {
            input_tokens: 0,
            output_tokens: 0,
            cache_read_tokens: 0,
            cache_write_tokens: 0,
            total_tokens: 0,
        }
    }
}

impl TokenUsage {
    /// A usage as reported.
    pub fn of(u: Usage) -> (r: TokenUsage)
        ensures
            r == tokens(u),
    {
        TokenUsage {
            input_tokens: u.input,
            output_tokens: u.output,
            cache_read_tokens: u.cache_read,
            cache_write_tokens: u.cache_write,
            total_tokens: u.total,
        }
    }

    /// Whether `u` can be added.
    pub fn can_add(&self, u: Usage) -> (r: bool)
        ensures
            r == addable(*self, u),
    {
        u.input <= u64::MAX - self.input_tokens && u.output <= u64::MAX - self.output_tokens
            && u.cache_read <= u64::MAX - self.cache_read_tokens && u.cache_write <= u64::MAX
            - self.cache_write_tokens && u.total <= u64::MAX - self.total_tokens
    }

    /// Adds `u`, field by field.
    pub fn add(&mut self, u: Usage)
        requires
            addable(*old(self), u),
        ensures
            *final(self) == added(*old(self), u),
    {
        self.input_tokens = self.input_tokens + u.input;
        self.output_tokens = self.output_tokens + u.output;
        self.cache_read_tokens = self.cache_read_tokens + u.cache_read;
        self.cache_write_tokens = self.cache_write_tokens + u.cache_write;
        self.total_tokens = self.total_tokens + u.total;
    }

    /// Back to the accounting of the conversation.
    pub fn to_usage(self) -> (r: Usage)
        ensures
            r == usage_of(self),
    {
        Usage {
            input: self.input_tokens,
            output: self.output_tokens,
            cache_read: self.cache_read_tokens,
            cache_write: self.cache_write_tokens,
            total: self.total_tokens,
        }
    }
}

/// One round of the run.
pub struct RoundReport {
    /// Its number, from 1.
    pub round: u32,
    /// The tools it requested.
    pub tools: Vec<String>,
    /// What it cost (nothing when the provider reported nothing).
    pub usage: TokenUsage,
}

/// What a [`RoundReport`] says.
pub struct RoundView {
    pub round: u32,
    pub tools: Seq<Seq<char>>,
    pub usage: TokenUsage,
}

impl View for RoundReport {
    type V = RoundView;

    open spec fn view(&self) -> RoundView {
        RoundView { round: self.round, tools: strs(self.tools@), usage: self.usage }
    }
}

impl Duplicate for RoundReport {
    fn duplicate(&self) -> (r: RoundReport) {
        RoundReport { round: self.round, tools: copy_strs(&self.tools), usage: self.usage }
    }
}

/// What everything the run delegated cost.
#[derive(Clone, Copy, Debug, PartialEq, Eq, Structural)]
pub struct DelegatedReport {
    /// Rounds run by children.
    pub rounds: u32,
    /// Their usage.
    pub usage: TokenUsage,
}

/// The document that `--output-format json` prints.
pub struct RunReport {
    /// Always `result`.
    pub kind: &'static str,
    /// Provider type.
    pub provider: String,
    /// Model id.
    pub model: String,
    /// The final reply (empty on failure).
    pub reply: String,
    /// The error text (empty without one).
    pub error: String,
    /// Rounds this run made itself.
    pub rounds: u32,
    /// Duration in milliseconds.
    pub duration_ms: u64,
    /// What this run's own rounds cost.
    pub usage: TokenUsage,
    /// What it delegated cost.
    pub delegated: Option<DelegatedReport>,
    /// What each round cost.
    pub round_usage: Vec<RoundReport>,
    /// Saved images.
    pub images: Vec<String>,
    /// Failures to save one.
    pub image_errors: Vec<String>,
}

/// `n`, or the greatest number of 32 bits when it is greater.
pub open spec fn clamped(n: nat) -> u32 {
    if n <= u32::MAX {
        n as u32
    } else {
        u32::MAX
    }
}

/// The accounting of a run: one entry for each round, and the running total.
pub struct RunRecorder {
    rounds: Vec<RoundReport>,
    total: TokenUsage,
}

/// What a [`RunRecorder`] holds.
pub struct RecordView {
    pub rounds: Seq<RoundView>,
    pub total: TokenUsage,
}

impl View for RunRecorder {
    type V = RecordView;

    closed spec fn view(&self) -> RecordView {
        RecordView { rounds: views(self.rounds@), total: self.total }
    }
}

/// What a usage adds: nothing when none was reported.
pub open spec fn usage_or_none(u: Option<Usage>) -> Usage {
    match u {
        Some(x) => x,
        None => no_usage(),
    }
}

/// The record after one more round. A round that reported no usage is still counted.
pub open spec fn observed(r: RecordView, usage: Option<Usage>, tools: Seq<Seq<char>>) -> RecordView {
    RecordView {
        rounds: r.rounds.push(
            RoundView {
                round: clamped(r.rounds.len() + 1),
                tools,
                usage: tokens(usage_or_none(usage)),
            },
        ),
        total: added(r.total, usage_or_none(usage)),
    }
}

/// One round as a recorder observes it: its usage, and the tools it called.
pub struct Observation {
    pub usage: Option<Usage>,
    pub tools: Seq<Seq<char>>,
}

/// The record of a run of rounds.
pub open spec fn record_of(seen: Seq<Observation>) -> RecordView
    decreases seen.len(),
{
    if seen.len() == 0 {
        RecordView { rounds: Seq::empty(), total: no_tokens() }
    } else {
        observed(record_of(seen.drop_last()), seen.last().usage, seen.last().tools)
    }
}

/// Whether the total of a run of rounds can be held, round by round.
pub open spec fn all_addable(seen: Seq<Observation>) -> bool
    decreases seen.len(),
{
    seen.len() == 0 || (all_addable(seen.drop_last()) && addable(
        record_of(seen.drop_last()).total,
        usage_or_none(seen.last().usage),
    ))
}

/// The sum of one field over the rounds.
pub open spec fn field_sum(rounds: Seq<RoundView>, field: spec_fn(TokenUsage) -> u64) -> nat
    decreases rounds.len(),
{
    if rounds.len() == 0 {
        0
    } else {
        field_sum(rounds.drop_last(), field) + field(rounds.last().usage) as nat
    }
}

/// The total of a record is the sum of its rounds, field by field; and no round is left out, whether or not it
/// reported its usage.
pub proof fn total_is_the_sum_of_the_rounds(seen: Seq<Observation>)
    requires
        all_addable(seen),
    ensures
        ({
            let r = record_of(seen);
            &&& r.rounds.len() == seen.len()
            &&& r.total.input_tokens == field_sum(r.rounds, |t: TokenUsage| t.input_tokens)
            &&& r.total.output_tokens == field_sum(r.rounds, |t: TokenUsage| t.output_tokens)
            &&& r.total.cache_read_tokens == field_sum(
                r.rounds,
                |t: TokenUsage| t.cache_read_tokens,
            )
            &&& r.total.cache_write_tokens == field_sum(
                r.rounds,
                |t: TokenUsage| t.cache_write_tokens,
            )
            &&& r.total.total_tokens == field_sum(r.rounds, |t: TokenUsage| t.total_tokens)
        }),
    decreases seen.len(),
{
    if seen.len() > 0 {
        let before = record_of(seen.drop_last());
        total_is_the_sum_of_the_rounds(seen.drop_last());
        assert(record_of(seen).rounds.drop_last() =~= before.rounds);
    }
}

impl Default for RunRecorder {
    /// No round yet.
    fn default() -> (r: RunRecorder)
        ensures
            r@ == (RecordView { rounds: Seq::empty(), total: no_tokens() }),
    {
        RunRecorder::start()
    }
}

impl RunRecorder {
    /// No round yet.
    pub fn start() -> (r: RunRecorder)
        ensures
            r@ == (RecordView { rounds: Seq::empty(), total: no_tokens() }),
    {
        let r = RunRecorder { rounds: Vec::new(), total: TokenUsage::default() };
        assert(r@.rounds =~= Seq::<RoundView>::empty());
        r
    }

    /// Whether the record can hold what a round cost.
    pub fn can_observe(&self, usage: Option<Usage>) -> (r: bool)
        ensures
            r == addable(self@.total, usage_or_none(usage)),
    {
        match usage {
            Some(u) => self.total.can_add(u),
            None => true,
        }
    }

    /// Records one round.
    pub fn observe(&mut self, usage: Option<Usage>, tools: Vec<String>)
        requires
            addable(old(self)@.total, usage_or_none(usage)),
        ensures
            final(self)@ == observed(old(self)@, usage, strs(tools@)),
    {
        let n: usize = self.rounds.len();
        let round: u32 = if n < 0xffff_ffff {
            (n + 1) as u32
        } else {
            0xffff_ffff
        };
        let u: Usage = match usage {
            Some(x) => x,
            None => Usage::default(),
        };
        self.total.add(u);
        let ghost was = views(self.rounds@);
        let report = RoundReport { round, tools, usage: TokenUsage::of(u) };
        self.rounds.push(report);
        assert(views(self.rounds@) =~= was.push(report@));
    }

    /// The rounds observed so far.
    pub fn rounds(&self) -> (r: &Vec<RoundReport>)
        ensures
            views(r@) == self@.rounds,
    {
        &self.rounds
    }

    /// Number of rounds observed.
    pub fn round_count(&self) -> (r: u32)
        ensures
            r == clamped(self@.rounds.len()),
    {
        let n: usize = self.rounds.len();
        if n <= 0xffff_ffff {
            n as u32
        } else {
            0xffff_ffff
        }
    }

    /// The running total.
    pub fn usage(&self) -> (r: Usage)
        ensures
            r == usage_of(self@.total),
    {
        self.total.to_usage()
    }

    /// The report of the run, which took `duration_ms`.
    pub fn report(
        &self,
        kind: ProviderKind,
        model: &str,
        reply: &str,
        images: Vec<String>,
        image_errors: Vec<String>,
        delegated: Option<DelegatedReport>,
        error: Option<String>,
        duration_ms: u64,
    ) -> (r: RunReport)
        ensures
            r.kind@ == "result"@,
            r.provider@ == kind_name(kind),
            r.model@ == model@,
            r.reply@ == reply@,
            r.error@ == match error {
                Some(e) => e@,
                None => Seq::empty(),
            },
            r.rounds == clamped(self@.rounds.len()),
            r.duration_ms == duration_ms,
            r.usage == self@.total,
            r.delegated == delegated,
            views(r.round_usage@) == self@.rounds,
            r.images == images,
            r.image_errors == image_errors,
    {
        RunReport {
            kind: "result",
            provider: own(kind.as_str()),
            model: own(model),
            reply: own(reply),
            error: match error {
                Some(e) => e,
                None => String::new(),
            },
            rounds: self.round_count(),
            duration_ms,
            usage: self.total,
            delegated,
            round_usage: copy_all(&self.rounds),
            images,
            image_errors,
        }
    }
}

/// The names of some calls, in call order and with repeats kept.
pub open spec fn names_of(calls: Seq<CallView>) -> Seq<Seq<char>> {
    Seq::new(calls.len(), |i: int| calls[i].name)
}

/// The names of the calls, in call order and with repeats kept.
pub fn tool_names(calls: &Vec<ToolCall>) -> (r: Vec<String>)
    ensures
        strs(r@) == names_of(views(calls@)),
{
    let mut r: Vec<String> = Vec::new();
    for i in 0..calls.len()
        invariant
            r@.len() == i,
            forall|k: int| 0 <= k < i ==> (#[trigger] r@[k])@ == calls@[k].name@,
    {
        r.push(calls[i].name.clone());
    }
    assert(strs(r@) =~= names_of(views(calls@)));
    r
}

/// What the children of a run cost; nothing until the first one is added.
pub struct DelegationLedger {
    pub spent: Option<(u32, TokenUsage)>,
}

impl Default for DelegationLedger {
    /// Nothing was delegated.
    fn default() -> (r: DelegationLedger)
        ensures
            r.spent is None,
    {
        DelegationLedger { spent: None }
    }
}

/// What a ledger holds, nothing delegated being nothing spent.
pub open spec fn spent_of(l: DelegationLedger) -> (u32, TokenUsage) {
    match l.spent {
        Some(s) => s,
        None => (0, no_tokens()),
    }
}

/// Whether the ledger can hold one more child.
pub open spec fn ledger_holds(l: DelegationLedger, rounds: u32, usage: Usage) -> bool {
    spent_of(l).0 + rounds <= u32::MAX && addable(spent_of(l).1, usage)
}

impl DelegationLedger {
    /// Whether the ledger can hold one more child.
    pub fn can_add(&self, rounds: u32, usage: Usage) -> (r: bool)
        ensures
            r == ledger_holds(*self, rounds, usage),
    {
        match self.spent {
            Some((n, t)) => rounds <= 0xffff_ffff - n && t.can_add(usage),
            None => true,
        }
    }

    /// Adds what one child cost.
    pub fn add(&mut self, rounds: u32, usage: Usage)
        requires
            ledger_holds(*old(self), rounds, usage),
        ensures
            final(self).spent == Some(
                (
                    (spent_of(*old(self)).0 + rounds) as u32,
                    added(spent_of(*old(self)).1, usage),
                ),
            ),
    {
        let (n, mut t) = match self.spent {
            Some((n, t)) => (n, t),
            None => (0, TokenUsage::default()),
        };
        t.add(usage);
        self.spent = Some((n + rounds, t));
    }

    /// What was spent; `None` when nothing was delegated.
    pub fn snapshot(&self) -> (r: Option<(u32, TokenUsage)>)
        ensures
            r == self.spent,
    {
        self.spent
    }
}

/// The report section of a ledger; `None` when nothing was delegated.
pub fn delegated_report(ledger: &DelegationLedger) -> (r: Option<DelegatedReport>)
    ensures
        r == match ledger.spent {
            Some((rounds, usage)) => Some(DelegatedReport { rounds, usage }),
            None => None,
        },
{
    match ledger.snapshot() {
        Some((rounds, usage)) => Some(DelegatedReport { rounds, usage }),
        None => None,
    }
}

} // verus!
