use rdp_probe::counter::GlobalCounter;
use rdp_probe::log::{attempt_line_text, outcome_label_text, Credentials, LogSink};
use rdp_probe::outcome::{Failure, Outcome, OutcomeKind};
use rdp_probe::report::{
    elapsed_line_text, elapsed_report, frame, results_line_text, Ledger, RunSummary,
};
use rdp_probe::text::{decimal_text, digit_text};

fn creds() -> Credentials {
    Credentials::new("admin".to_string(), "secret".to_string())
}

fn refused() -> Outcome {
    Outcome::Error(Failure::Connect("Connection refused (os error 111)".to_string()))
}

#[test]
fn counter_starts_at_zero() {
    let c = GlobalCounter::new();
    assert_eq!((c.goods, c.err, c.timed_out), (0, 0, 0));
    assert_eq!(c.all(), 0);
    assert!(c.has_room());
    assert_eq!(GlobalCounter::default(), c);
}

#[test]
fn record_raises_only_the_matching_total() {
    let mut c = GlobalCounter::new();
    c.record(&Outcome::Success);
    assert_eq!((c.goods, c.err, c.timed_out), (1, 0, 0));
    c.record(&refused());
    assert_eq!((c.goods, c.err, c.timed_out), (1, 1, 0));
    c.record(&Outcome::Error(Failure::Handshake));
    assert_eq!((c.goods, c.err, c.timed_out), (1, 2, 0));
    c.record(&Outcome::TimedOut);
    assert_eq!((c.goods, c.err, c.timed_out), (1, 2, 1));
    assert_eq!(c.all(), 4);
}

#[test]
fn timeout_leaves_goods_and_err_alone() {
    let mut c = GlobalCounter { goods: 3, err: 5, timed_out: 7 };
    c.record(&Outcome::TimedOut);
    assert_eq!(c, GlobalCounter { goods: 3, err: 5, timed_out: 8 });
}

#[test]
fn success_raises_goods_by_one() {
    let mut c = GlobalCounter { goods: 3, err: 5, timed_out: 7 };
    c.record(&Outcome::Success);
    assert_eq!(c, GlobalCounter { goods: 4, err: 5, timed_out: 7 });
}

#[test]
fn counter_without_room_says_so() {
    let c = GlobalCounter { goods: usize::MAX - 1, err: 1, timed_out: 0 };
    assert!(!c.has_room());
    let c = GlobalCounter { goods: usize::MAX - 2, err: 1, timed_out: 0 };
    assert!(c.has_room());
}

#[test]
fn kinds_of_outcomes() {
    assert_eq!(Outcome::Success.kind(), OutcomeKind::Success);
    assert_eq!(refused().kind(), OutcomeKind::Error);
    assert_eq!(Outcome::Error(Failure::Handshake).kind(), OutcomeKind::Error);
    assert_eq!(Outcome::TimedOut.kind(), OutcomeKind::TimedOut);
}

#[test]
fn tally_conserves_the_number_of_attempts() {
    let outcomes = vec![
        Outcome::Success,
        refused(),
        Outcome::TimedOut,
        Outcome::Error(Failure::Handshake),
        Outcome::Success,
        Outcome::TimedOut,
        Outcome::TimedOut,
    ];
    let c = GlobalCounter::tally(&outcomes);
    assert_eq!((c.goods, c.err, c.timed_out), (2, 2, 3));
    assert_eq!(c.goods + c.err + c.timed_out, outcomes.len());
    assert_eq!(c.all(), 7);
    assert_eq!(GlobalCounter::tally(&Vec::new()).all(), 0);
}

#[test]
fn tally_ignores_completion_order() {
    let in_order = vec![Outcome::Success, refused(), Outcome::TimedOut, Outcome::Success];
    let shuffled = vec![Outcome::TimedOut, Outcome::Success, Outcome::Success, refused()];
    let reversed = vec![Outcome::Success, Outcome::TimedOut, refused(), Outcome::Success];
    let a = GlobalCounter::tally(&in_order);
    assert_eq!(a, GlobalCounter { goods: 2, err: 1, timed_out: 1 });
    assert_eq!(GlobalCounter::tally(&shuffled), a);
    assert_eq!(GlobalCounter::tally(&reversed), a);
}

#[test]
fn digits_and_decimals() {
    assert_eq!(digit_text(0), "0");
    assert_eq!(digit_text(5), "5");
    assert_eq!(digit_text(9), "9");
    assert_eq!(decimal_text(0), "0");
    assert_eq!(decimal_text(7), "7");
    assert_eq!(decimal_text(10), "10");
    assert_eq!(decimal_text(3389), "3389");
    assert_eq!(decimal_text(1_000_000), "1000000");
    assert_eq!(decimal_text(usize::MAX), usize::MAX.to_string());
}

#[test]
fn labels_of_outcomes() {
    assert_eq!(outcome_label_text(&Outcome::Success), "ok: ");
    assert_eq!(
        outcome_label_text(&refused()),
        "connect err: Connection refused (os error 111): "
    );
    assert_eq!(outcome_label_text(&Outcome::Error(Failure::Handshake)), "err: ");
    assert_eq!(outcome_label_text(&Outcome::TimedOut), "timed out: ");
}

#[test]
fn lines_of_outcomes() {
    let c = creds();
    assert_eq!(attempt_line_text(&Outcome::Success, "10.0.0.1", &c), "ok: 10.0.0.1 admin secret");
    assert_eq!(
        attempt_line_text(&refused(), "10.0.0.1", &c),
        "connect err: Connection refused (os error 111): 10.0.0.1 admin secret"
    );
    assert_eq!(
        attempt_line_text(&Outcome::Error(Failure::Handshake), "10.0.0.2", &c),
        "err: 10.0.0.2 admin secret"
    );
    assert_eq!(
        attempt_line_text(&Outcome::TimedOut, "10.0.0.3", &c),
        "timed out: 10.0.0.3 admin secret"
    );
}

#[test]
fn credentials_are_duplicated_as_they_are() {
    let c = creds();
    let d = c.duplicate();
    assert_eq!(c, d);
    assert_eq!(d.username, "admin");
    assert_eq!(d.password, "secret");
}

#[test]
fn sink_appends_in_order() {
    let mut sink = LogSink::new();
    assert_eq!(sink.len(), 0);
    assert_eq!(sink.append("first"), "first\n");
    assert_eq!(sink.append(""), "\n");
    assert_eq!(sink.append("third"), "third\n");
    assert_eq!(sink.len(), 3);
    assert_eq!(sink.line(0), "first");
    assert_eq!(sink.line(1), "");
    assert_eq!(sink.line(2), "third");
}

#[test]
fn framing_adds_one_newline() {
    assert_eq!(frame("goods: 0"), "goods: 0\n");
    assert_eq!(frame(""), "\n");
}

#[test]
fn results_line_has_the_four_totals() {
    let c = GlobalCounter { goods: 12, err: 345, timed_out: 6 };
    assert_eq!(results_line_text(&c), "goods: 12, err: 345, timed out: 6, all: 363");
    assert_eq!(
        results_line_text(&GlobalCounter::new()),
        "goods: 0, err: 0, timed out: 0, all: 0"
    );
}

#[test]
fn elapsed_line_wraps_the_rendering() {
    assert_eq!(elapsed_line_text("1.50s"), "время выполнения: 1.50s");
    assert_eq!(elapsed_line_text(""), "время выполнения: ");
}

#[test]
fn elapsed_report_renders_with_two_fraction_digits() {
    assert_eq!(elapsed_report(1, 500_000_000), "время выполнения: 1.50s");
    assert_eq!(elapsed_report(0, 12_345_678), "время выполнения: 12.35ms");
    assert_eq!(elapsed_report(2, 0), "время выполнения: 2.00s");
    assert_eq!(
        elapsed_report(3, 999_999_999),
        format!("время выполнения: {:.2?}", std::time::Duration::new(3, 999_999_999))
    );
}

#[test]
fn ledger_books_one_count_and_one_line_per_outcome() {
    let c = creds();
    let mut ledger = Ledger::new(4);
    assert_eq!(ledger.pending_count(), 4);
    let e1 = ledger.settle("10.0.0.1", &c, &Outcome::Success);
    assert_eq!(e1, "ok: 10.0.0.1 admin secret\n");
    let e2 = ledger.settle("10.0.0.2", &c, &refused());
    assert_eq!(e2, "connect err: Connection refused (os error 111): 10.0.0.2 admin secret\n");
    assert_eq!(ledger.pending_count(), 2);
    ledger.settle("10.0.0.3", &c, &Outcome::TimedOut);
    ledger.settle("10.0.0.4", &c, &Outcome::Error(Failure::Handshake));
    assert_eq!(ledger.pending_count(), 0);
    let counter = ledger.counter();
    assert_eq!((counter.goods, counter.err, counter.timed_out), (1, 2, 1));
    assert_eq!(ledger.log().len(), counter.goods + counter.err + counter.timed_out);
    assert_eq!(ledger.log().line(2), "timed out: 10.0.0.3 admin secret");
    assert_eq!(ledger.log().line(3), "err: 10.0.0.4 admin secret");
}

#[test]
fn closing_appends_the_two_summary_lines_last() {
    let c = creds();
    let mut ledger = Ledger::new(1);
    ledger.settle("10.0.0.9", &c, &Outcome::Success);
    let log = ledger.close(0, 250_000_000);
    assert_eq!(log.len(), 3);
    assert_eq!(log.line(0), "ok: 10.0.0.9 admin secret");
    assert_eq!(log.line(1), "goods: 1, err: 0, timed out: 0, all: 1");
    assert_eq!(log.line(2), "время выполнения: 250.00ms");
}

#[test]
fn empty_run_closes_with_zero_totals() {
    let log = Ledger::new(0).close(0, 0);
    assert_eq!(log.len(), 2);
    assert_eq!(log.line(0), "goods: 0, err: 0, timed out: 0, all: 0");
    assert_eq!(log.line(1), "время выполнения: 0.00ns");
}

#[test]
fn summary_is_a_snapshot_of_the_final_totals() {
    let c = creds();
    let mut ledger = Ledger::new(3);
    ledger.settle("10.0.0.1", &c, &Outcome::TimedOut);
    ledger.settle("10.0.0.2", &c, &Outcome::Success);
    ledger.settle("10.0.0.3", &c, &Outcome::TimedOut);
    let summary = ledger.summarize(12, 34);
    assert_eq!(
        summary,
        RunSummary { goods: 1, err: 0, timed_out: 2, all: 3, elapsed_secs: 12, elapsed_nanos: 34 }
    );
}
