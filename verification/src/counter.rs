//! Per-outcome totals.

use vstd::prelude::*;
use crate::outcome::{Outcome, OutcomeKind, kinds_of};

verus! {

/// Totals as mathematical numbers: the model of a [`GlobalCounter`].
pub ghost struct Totals {
    pub goods: nat,
    pub err: nat,
    pub timed_out: nat,
}

impl Totals {
    pub open spec fn zero() -> Totals {
        Totals { goods: 0, err: 0, timed_out: 0 }
    }

    /// Number of attempts accounted for.
    pub open spec fn sum(self) -> nat {
        self.goods + self.err + self.timed_out
    }

    /// The totals after one more outcome of kind `k`.
    pub open spec fn record(self, k: OutcomeKind) -> Totals {
        match k {
            OutcomeKind::Success => Totals { goods: self.goods + 1, ..self },
            OutcomeKind::Error => Totals { err: self.err + 1, ..self },
            OutcomeKind::TimedOut => Totals { timed_out: self.timed_out + 1, ..self },
        }
    }

    /// The totals of a run whose attempts settled with the kinds `s`, in any
    /// order: each field is the number of occurrences of its kind.
    pub open spec fn of(s: Seq<OutcomeKind>) -> Totals {
        Totals {
            goods: s.to_multiset().count(OutcomeKind::Success),
            err: s.to_multiset().count(OutcomeKind::Error),
            timed_out: s.to_multiset().count(OutcomeKind::TimedOut),
        }
    }
}

/// Nothing settled, nothing counted.
pub proof fn lemma_totals_of_empty()
    ensures
        Totals::of(Seq::<OutcomeKind>::empty()) == Totals::zero(),
{
    broadcast use vstd::seq_lib::group_to_multiset_ensures;
}

/// Settling one more attempt is one `record` on the totals so far.
pub proof fn lemma_totals_of_push(s: Seq<OutcomeKind>, k: OutcomeKind)
    ensures
        Totals::of(s.push(k)) == Totals::of(s).record(k),
{
    broadcast use vstd::seq_lib::group_to_multiset_ensures;
}

/// Conservation: the three totals of a run add up to the number of attempts
/// that settled.
pub proof fn lemma_conservation(s: Seq<OutcomeKind>)
    ensures
        Totals::of(s).sum() == s.len(),
    decreases s.len(),
{
    if s.len() == 0 {
        assert(s =~= Seq::<OutcomeKind>::empty());
        lemma_totals_of_empty();
    } else {
        lemma_conservation(s.drop_last());
        assert(s =~= s.drop_last().push(s.last()));
        lemma_totals_of_push(s.drop_last(), s.last());
    }
}

/// Order independence: two runs whose attempts settled with the same kinds,
/// in whatever order each, end with the same totals. The width of the task
/// pool changes the order of completion and nothing else.
pub proof fn lemma_totals_ignore_order(a: Seq<OutcomeKind>, b: Seq<OutcomeKind>)
    requires
        a.to_multiset() == b.to_multiset(),
    ensures
        Totals::of(a) == Totals::of(b),
{
}

/// Recording never lowers a total, and raises exactly one of them by one.
pub proof fn lemma_record_raises_one(t: Totals, k: OutcomeKind)
    ensures
        t.record(k).sum() == t.sum() + 1,
        t.record(k).goods >= t.goods,
        t.record(k).err >= t.err,
        t.record(k).timed_out >= t.timed_out,
        t.record(k).goods == t.goods + if k == OutcomeKind::Success { 1nat } else { 0nat },
        t.record(k).err == t.err + if k == OutcomeKind::Error { 1nat } else { 0nat },
        t.record(k).timed_out == t.timed_out + if k == OutcomeKind::TimedOut { 1nat } else { 0nat },
{
}

/// The three running totals of a run.
#[derive(Clone, Debug, PartialEq, Eq)]
pub struct GlobalCounter {
    pub goods: usize,
    pub err: usize,
    pub timed_out: usize,
}

impl View for GlobalCounter {
    type V = Totals;

    open spec fn view(&self) -> Totals {
        Totals { goods: self.goods as nat, err: self.err as nat, timed_out: self.timed_out as nat }
    }
}

impl Default for GlobalCounter {
    fn default() -> (c: GlobalCounter)
        ensures
            c@ == Totals::zero(),
            c.wf(),
    {
        GlobalCounter { goods: 0, err: 0, timed_out: 0 }
    }
}

impl GlobalCounter {
    /// The number of attempts accounted for fits the machine word, so the
    /// grand total can be computed.
    pub open spec fn wf(&self) -> bool {
        self@.sum() <= usize::MAX
    }

    /// A counter with all totals at zero.
    pub fn new() -> (c: GlobalCounter)
        ensures
            c@ == Totals::zero(),
            c.wf(),
    {
        GlobalCounter { goods: 0, err: 0, timed_out: 0 }
    }

    /// Whether one more outcome can be recorded.
    pub fn has_room(&self) -> (b: bool)
        requires
            self.wf(),
        ensures
            b == (self@.sum() < usize::MAX),
    {
        self.goods + self.err + self.timed_out < usize::MAX
    }

    /// Counts one settled attempt: the total of its kind rises by one, the
    /// other two stay.
    pub fn record(&mut self, outcome: &Outcome)
        requires
            old(self).wf(),
            old(self)@.sum() < usize::MAX,
        ensures
            final(self)@ == old(self)@.record(outcome.spec_kind()),
            final(self).wf(),
    {
        match outcome {
            Outcome::Success => {
                self.goods = self.goods + 1;
            },
            Outcome::Error(_) => {
                self.err = self.err + 1;
            },
            Outcome::TimedOut => {
                self.timed_out = self.timed_out + 1;
            },
        }
    }

    /// The number of attempts accounted for.
    pub fn all(&self) -> (n: usize)
        requires
            self.wf(),
        ensures
            n == self@.sum(),
    {
        self.goods + self.err + self.timed_out
    }

    /// The totals of a whole run, from its outcomes in order of completion.
    pub fn tally(outcomes: &Vec<Outcome>) -> (c: GlobalCounter)
        ensures
            c@ == Totals::of(kinds_of(outcomes@)),
            c@.sum() == outcomes@.len(),
            c.wf(),
    {
        let mut c = GlobalCounter::new();
        let mut i: usize = 0;
        proof {
            assert(kinds_of(outcomes@.take(0)) =~= Seq::<OutcomeKind>::empty());
            lemma_totals_of_empty();
        }
        while i < outcomes.len()
            invariant
                i <= outcomes.len(),
                c@ == Totals::of(kinds_of(outcomes@.take(i as int))),
                c@.sum() == i,
                c.wf(),
            decreases outcomes.len() - i,
        {
            proof {
                let done = kinds_of(outcomes@.take(i as int));
                assert(kinds_of(outcomes@.take(i + 1)) =~= done.push(outcomes@[i as int].spec_kind()));
                lemma_totals_of_push(done, outcomes@[i as int].spec_kind());
            }
            c.record(&outcomes[i]);
            i = i + 1;
        }
        proof {
            assert(outcomes@.take(i as int) =~= outcomes@);
        }
        c
    }
}

} // verus!
