//! The run's books: counter and log kept in step, and the closing summary.

use vstd::prelude::*;
use vstd::string::StringExecFns;
use crate::counter::{
    lemma_conservation, lemma_totals_of_empty, lemma_totals_of_push, GlobalCounter, Totals,
};
use crate::log::{attempt_line, attempt_line_text, framed, Credentials, LogSink};
use crate::outcome::{Outcome, OutcomeKind};
use crate::text::{decimal, decimal_text};

verus! {

/// The results line: the three totals and their sum, in decimal.
pub open spec fn results_line(t: Totals) -> Seq<char> {
    "goods: "@ + decimal(t.goods) + ", err: "@ + decimal(t.err) + ", timed out: "@ + decimal(
        t.timed_out,
    ) + ", all: "@ + decimal(t.sum())
}

/// The elapsed-time line around an already rendered duration.
pub open spec fn elapsed_line(rendered: Seq<char>) -> Seq<char> {
    "время выполнения: "@ + rendered
}

/// How the standard library renders a duration of `secs` seconds and `nanos`
/// nanoseconds for debugging, with two fractional digits.
pub uninterp spec fn duration_text(secs: u64, nanos: u32) -> Seq<char>;

/// `format!` with `{:.2?}` on a `std::time::Duration` made by `Duration::new`.
/// The rendering depends on the two numbers alone; it is named, not spelled
/// out. With `nanos` under a second `Duration::new` carries nothing and
/// cannot overflow.
#[verifier::external_body]
fn render_duration(secs: u64, nanos: u32) -> (t: String)
    requires
        nanos < 1_000_000_000,
    ensures
        t@ == duration_text(secs, nanos),
{
    format!("{:.2?}", std::time::Duration::new(secs, nanos))
}

/// The results line of a counter.
pub fn results_line_text(counter: &GlobalCounter) -> (t: String)
    requires
        counter.wf(),
    ensures
        t@ == results_line(counter@),
{
    let mut t = String::from_str("goods: ");
    let goods = decimal_text(counter.goods);
    t.append(goods.as_str());
    t.append(", err: ");
    let err = decimal_text(counter.err);
    t.append(err.as_str());
    t.append(", timed out: ");
    let timed_out = decimal_text(counter.timed_out);
    t.append(timed_out.as_str());
    t.append(", all: ");
    let all = decimal_text(counter.all());
    t.append(all.as_str());
    t
}

/// The elapsed-time line around an already rendered duration.
pub fn elapsed_line_text(rendered: &str) -> (t: String)
    ensures
        t@ == elapsed_line(rendered@),
{
    let mut t = String::from_str("время выполнения: ");
    t.append(rendered);
    t
}

/// The elapsed-time line of a run that took `secs` seconds and `nanos`
/// nanoseconds.
pub fn elapsed_report(secs: u64, nanos: u32) -> (t: String)
    requires
        nanos < 1_000_000_000,
    ensures
        t@ == elapsed_line(duration_text(secs, nanos)),
{
    let rendered = render_duration(secs, nanos);
    elapsed_line_text(rendered.as_str())
}

/// What is written for a line: the line and a newline.
pub fn frame(line: &str) -> (entry: String)
    ensures
        entry@ == framed(line@),
{
    let mut entry = String::from_str(line);
    entry.append("\n");
    entry
}

/// One settled attempt as the books see it: its outcome and what its line
/// names.
pub ghost struct Booking {
    pub outcome: Outcome,
    pub host: Seq<char>,
    pub username: Seq<char>,
    pub password: Seq<char>,
}

impl Booking {
    /// The log line of this booking.
    pub open spec fn line(self) -> Seq<char> {
        attempt_line(self.outcome, self.host, self.username, self.password)
    }
}

/// The log lines of some bookings, in their order.
pub open spec fn booked_lines(bookings: Seq<Booking>) -> Seq<Seq<char>> {
    bookings.map_values(|b: Booking| b.line())
}

/// The kinds of the outcomes of some bookings, in their order.
pub open spec fn booked_kinds(bookings: Seq<Booking>) -> Seq<OutcomeKind> {
    bookings.map_values(|b: Booking| b.outcome.spec_kind())
}

/// Two sequences that hold the same items, each in its own order, still hold
/// the same items after one function has been applied to every item.
pub proof fn lemma_map_keeps_multiset<A, B>(a: Seq<A>, b: Seq<A>, f: spec_fn(A) -> B)
    requires
        a.to_multiset() == b.to_multiset(),
    ensures
        a.map_values(f).to_multiset() == b.map_values(f).to_multiset(),
    decreases a.len(),
{
    broadcast use vstd::seq_lib::group_to_multiset_ensures;

    assert(a.len() == b.len()) by {
        assert(a.len() == a.to_multiset().len());
        assert(b.len() == b.to_multiset().len());
    }
    if a.len() == 0 {
        assert(a.map_values(f) =~= b.map_values(f));
    } else {
        let x = a.last();
        let front = a.drop_last();
        assert(a =~= front.push(x));
        assert(a.to_multiset().count(x) > 0);
        assert(b.contains(x));
        let j = choose|j: int| 0 <= j < b.len() && b[j] == x;
        let others = b.remove(j);
        assert(others.to_multiset() =~= front.to_multiset());
        lemma_map_keeps_multiset(front, others, f);
        assert(a.map_values(f) =~= front.map_values(f).push(f(x)));
        assert(b.map_values(f).remove(j) =~= others.map_values(f));
        assert(b.map_values(f)[j] == f(x));
        assert(b.map_values(f).to_multiset().count(f(x)) > 0);
        assert(b.map_values(f).to_multiset() =~= others.map_values(f).to_multiset().insert(f(x)));
    }
}

/// Counter and log of one run over a fixed number of dispatched attempts.
/// Every settled attempt is one count and one line, so while the run is open
/// the log has as many lines as the counter has attempts, and never more
/// than were dispatched.
pub struct Ledger {
    dispatched: usize,
    counter: GlobalCounter,
    sink: LogSink,
    booked: Ghost<Seq<Booking>>,
}

/// What a finished run reports: the final totals, read once after every
/// attempt has settled, and the time the run took.
#[derive(Clone, Debug, PartialEq, Eq)]
pub struct RunSummary {
    pub goods: usize,
    pub err: usize,
    pub timed_out: usize,
    pub all: usize,
    pub elapsed_secs: u64,
    pub elapsed_nanos: u32,
}

impl Ledger {
    /// The totals so far.
    pub closed spec fn totals(&self) -> Totals {
        self.counter@
    }

    /// The log so far.
    pub closed spec fn lines(&self) -> Seq<Seq<char>> {
        self.sink@
    }

    /// The kinds of the outcomes booked so far, in the order of booking.
    pub open spec fn settled(&self) -> Seq<OutcomeKind> {
        booked_kinds(self.booked())
    }

    /// The attempts booked so far, in the order of booking.
    pub closed spec fn booked(&self) -> Seq<Booking> {
        self.booked@
    }

    /// The number of attempts that the run was opened for.
    pub closed spec fn dispatched(&self) -> nat {
        self.dispatched as nat
    }

    /// The number of attempts that have not settled yet.
    pub open spec fn pending(&self) -> int {
        self.dispatched() - self.totals().sum()
    }

    /// One line per counted attempt, and no more attempts counted than were
    /// dispatched.
    pub closed spec fn wf(&self) -> bool {
        &&& self.sink@ == booked_lines(self.booked@)
        &&& self.counter@ == Totals::of(booked_kinds(self.booked@))
        &&& self.booked@.len() <= self.dispatched
    }

    /// No double counting: in a well-formed ledger the totals are those of
    /// the outcomes booked, and the three of them add up to the number of
    /// lines.
    pub proof fn lemma_lines_match_totals(&self)
        requires
            self.wf(),
        ensures
            self.totals() == Totals::of(self.settled()),
            self.lines() == booked_lines(self.booked()),
            self.lines().len() == self.settled().len(),
            self.lines().len() == self.totals().sum(),
            self.totals().sum() <= self.dispatched() <= usize::MAX,
            self.pending() >= 0,
    {
        lemma_conservation(booked_kinds(self.booked@));
    }

    /// Two runs that booked the same outcomes, each in its own order of
    /// completion, have the same totals and the same number of lines.
    pub proof fn lemma_order_of_completion_is_immaterial(&self, other: &Ledger)
        requires
            self.wf(),
            other.wf(),
            self.settled().to_multiset() == other.settled().to_multiset(),
        ensures
            self.totals() == other.totals(),
            self.lines().len() == other.lines().len(),
    {
        self.lemma_lines_match_totals();
        other.lemma_lines_match_totals();
    }

    /// Two runs that booked the same attempts with the same outcomes, each in
    /// its own order of completion, have the same totals, and their logs hold
    /// the same lines, each as often in one as in the other; only the order
    /// of the lines may differ.
    pub proof fn lemma_same_attempts_same_books(&self, other: &Ledger)
        requires
            self.wf(),
            other.wf(),
            self.booked().to_multiset() == other.booked().to_multiset(),
        ensures
            self.totals() == other.totals(),
            self.lines().to_multiset() == other.lines().to_multiset(),
    {
        self.lemma_lines_match_totals();
        other.lemma_lines_match_totals();
        lemma_map_keeps_multiset(self.booked(), other.booked(), |b: Booking| b.line());
        lemma_map_keeps_multiset(
            self.booked(),
            other.booked(),
            |b: Booking| b.outcome.spec_kind(),
        );
    }

    /// Conservation: once every dispatched attempt has settled, goods,
    /// errors and timeouts add up to the number of attempts, and so does the
    /// number of log lines.
    pub proof fn lemma_complete_run_accounts_for_all(&self)
        requires
            self.wf(),
            self.pending() == 0,
        ensures
            self.totals().goods + self.totals().err + self.totals().timed_out
                == self.dispatched(),
            self.lines().len() == self.dispatched(),
    {
        self.lemma_lines_match_totals();
    }

    /// The books of a run of `dispatched` attempts, none of them settled.
    pub fn new(dispatched: usize) -> (ledger: Ledger)
        ensures
            ledger.wf(),
            ledger.dispatched() == dispatched,
            ledger.booked() == Seq::<Booking>::empty(),
            ledger.totals() == Totals::zero(),
            ledger.lines() == Seq::<Seq<char>>::empty(),
    {
        proof {
            lemma_totals_of_empty();
            assert(booked_kinds(Seq::<Booking>::empty()) =~= Seq::<OutcomeKind>::empty());
            assert(booked_lines(Seq::<Booking>::empty()) =~= Seq::<Seq<char>>::empty());
        }
        Ledger {
            dispatched,
            counter: GlobalCounter::new(),
            sink: LogSink::new(),
            booked: Ghost(Seq::empty()),
        }
    }

    /// Number of attempts that have not settled yet: the join barrier is
    /// passed when this is zero.
    pub fn pending_count(&self) -> (n: usize)
        requires
            self.wf(),
        ensures
            n == self.pending(),
    {
        proof {
            self.lemma_lines_match_totals();
        }
        self.dispatched - self.counter.all()
    }

    /// Books one settled attempt: exactly one count, of the outcome's kind,
    /// and exactly one line, after all earlier ones. Returns what the durable
    /// log is to be given for it.
    pub fn settle(&mut self, host: &str, credentials: &Credentials, outcome: &Outcome) -> (entry:
        String)
        requires
            old(self).wf(),
            old(self).pending() > 0,
        ensures
            final(self).wf(),
            final(self).dispatched() == old(self).dispatched(),
            final(self).pending() == old(self).pending() - 1,
            final(self).booked() == old(self).booked().push(
                (Booking {
                    outcome: *outcome,
                    host: host@,
                    username: credentials.username@,
                    password: credentials.password@,
                }),
            ),
            final(self).settled() == old(self).settled().push(outcome.spec_kind()),
            final(self).totals() == old(self).totals().record(outcome.spec_kind()),
            final(self).lines() == old(self).lines().push(
                attempt_line(*outcome, host@, credentials.username@, credentials.password@),
            ),
            entry@ == framed(
                attempt_line(*outcome, host@, credentials.username@, credentials.password@),
            ),
    {
        let ghost booking = Booking {
            outcome: *outcome,
            host: host@,
            username: credentials.username@,
            password: credentials.password@,
        };
        proof {
            self.lemma_lines_match_totals();
            lemma_totals_of_push(booked_kinds(self.booked@), outcome.spec_kind());
            assert(booked_kinds(self.booked@.push(booking)) =~= booked_kinds(self.booked@).push(
                outcome.spec_kind(),
            ));
            assert(booked_lines(self.booked@.push(booking)) =~= booked_lines(self.booked@).push(
                booking.line(),
            ));
        }
        let line = attempt_line_text(outcome, host, credentials);
        let entry = self.sink.append(line.as_str());
        self.counter.record(outcome);
        self.booked = Ghost(self.booked@.push(booking));
        entry
    }

    /// The counter, for the final read.
    pub fn counter(&self) -> (c: &GlobalCounter)
        ensures
            c@ == self.totals(),
            self.wf() ==> c.wf(),
    {
        proof {
            if self.wf() {
                self.lemma_lines_match_totals();
            }
        }
        &self.counter
    }

    /// The summary of a run whose attempts have all settled: the totals as
    /// they stand, their sum, which is the number of attempts, and the
    /// elapsed time as given.
    pub fn summarize(&self, elapsed_secs: u64, elapsed_nanos: u32) -> (summary: RunSummary)
        requires
            self.wf(),
            self.pending() == 0,
        ensures
            summary.goods == self.totals().goods,
            summary.err == self.totals().err,
            summary.timed_out == self.totals().timed_out,
            summary.all == self.totals().sum(),
            summary.all == self.dispatched(),
            summary.elapsed_secs == elapsed_secs,
            summary.elapsed_nanos == elapsed_nanos,
    {
        proof {
            self.lemma_lines_match_totals();
        }
        RunSummary {
            goods: self.counter.goods,
            err: self.counter.err,
            timed_out: self.counter.timed_out,
            all: self.counter.all(),
            elapsed_secs,
            elapsed_nanos,
        }
    }

    /// The log so far.
    pub fn log(&self) -> (sink: &LogSink)
        ensures
            sink@ == self.lines(),
    {
        &self.sink
    }

    /// Ends the run once every attempt has settled: appends the results line
    /// and then the elapsed-time line to the log, after every attempt's line,
    /// and hands the log out. Nothing can be booked afterwards.
    pub fn close(self, elapsed_secs: u64, elapsed_nanos: u32) -> (sink: LogSink)
        requires
            self.wf(),
            self.pending() == 0,
            elapsed_nanos < 1_000_000_000,
        ensures
            sink@.len() == self.dispatched() + 2,
            sink@ == self.lines().push(results_line(self.totals())).push(
                elapsed_line(duration_text(elapsed_secs, elapsed_nanos)),
            ),
    {
        proof {
            self.lemma_lines_match_totals();
        }
        let results = results_line_text(&self.counter);
        let elapsed = elapsed_report(elapsed_secs, elapsed_nanos);
        let mut sink = self.sink;
        sink.append(results.as_str());
        sink.append(elapsed.as_str());
        sink
    }
}

} // verus!
