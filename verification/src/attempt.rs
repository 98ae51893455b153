//! One attempt per target: what to do next, given what just happened.
//!
//! The program around the library performs each [`Action`] and reports back
//! with an [`Event`]; [`Attempt::advance`] decides.

use vstd::prelude::*;
use vstd::string::StringExecFns;
use crate::counter::Totals;
use crate::handshake::{
    connector_login, connector_screen, connector_switches, HandshakeSettings, DISPLAY_HEIGHT,
    DISPLAY_WIDTH,
};
use crate::log::{attempt_line, attempt_line_text, Credentials};
use crate::outcome::{Failure, Outcome, OutcomeKind};
use crate::text::{decimal, decimal_text};

verus! {

/// The service port that every target is contacted at.
pub const SERVICE_PORT: u16 = 3389;

/// The transport address of a host, as text: the host, a colon, the service
/// port in decimal.
pub open spec fn transport_address(host: Seq<char>) -> Seq<char> {
    host + ":"@ + decimal(SERVICE_PORT as nat)
}

/// The transport address of a host, as text.
pub fn transport_address_text(host: &str) -> (t: String)
    ensures
        t@ == transport_address(host@),
{
    let mut t = String::from_str(host);
    t.append(":");
    let port = decimal_text(SERVICE_PORT as usize);
    t.append(port.as_str());
    t
}

/// Where an attempt stands.
#[derive(PartialEq, Eq, Structural, Clone, Copy, Debug)]
pub enum Stage {
    /// Its address text awaits parsing.
    Addressing,
    /// The transport connection is being opened.
    Connecting,
    /// The login negotiation is running.
    Handshaking,
    /// It has its outcome.
    Settled,
    /// Its host identifier was malformed, which ends the whole run.
    Aborted,
}

/// What the outside world reports of the action last asked for.
#[derive(Clone, Debug, PartialEq, Eq)]
pub enum Event {
    AddressParsed,
    AddressMalformed,
    Connected,
    /// The connection was refused, the host was unreachable, or the wait for
    /// the connection elapsed. Carries the transport's description.
    ConnectFailed(String),
    HandshakeSucceeded,
    HandshakeFailed,
    /// The wait for the handshake elapsed before it finished.
    HandshakeElapsed,
}

/// What the outside world is to do next.
#[derive(Clone, Debug, PartialEq, Eq)]
pub enum Action {
    /// Open the transport connection, waiting no longer than this.
    Connect { wait_secs: u64 },
    /// Run the login negotiation on the open connection, waiting no longer
    /// than this.
    Handshake { wait_secs: u64 },
    /// Count and log this outcome; the attempt is over.
    Settle(Outcome),
    /// Give up the whole run.
    Abort,
}

/// The transition rule. Both waits get the full configured duration, each
/// for itself. `None` where the event does not answer the stage.
pub open spec fn step(stage: Stage, event: Event, wait_secs: u64) -> Option<(Stage, Action)> {
    match (stage, event) {
        (Stage::Addressing, Event::AddressParsed) => Some(
            (Stage::Connecting, Action::Connect { wait_secs }),
        ),
        (Stage::Addressing, Event::AddressMalformed) => Some((Stage::Aborted, Action::Abort)),
        (Stage::Connecting, Event::Connected) => Some(
            (Stage::Handshaking, Action::Handshake { wait_secs }),
        ),
        (Stage::Connecting, Event::ConnectFailed(detail)) => Some(
            (Stage::Settled, Action::Settle(Outcome::Error(Failure::Connect(detail)))),
        ),
        (Stage::Handshaking, Event::HandshakeSucceeded) => Some(
            (Stage::Settled, Action::Settle(Outcome::Success)),
        ),
        (Stage::Handshaking, Event::HandshakeFailed) => Some(
            (Stage::Settled, Action::Settle(Outcome::Error(Failure::Handshake))),
        ),
        (Stage::Handshaking, Event::HandshakeElapsed) => Some(
            (Stage::Settled, Action::Settle(Outcome::TimedOut)),
        ),
        _ => None,
    }
}

/// Applies the transition rule.
pub fn next_step(stage: Stage, event: Event, wait_secs: u64) -> (r: Option<(Stage, Action)>)
    ensures
        r == step(stage, event, wait_secs),
{
    match stage {
        Stage::Addressing => match event {
            Event::AddressParsed => Some((Stage::Connecting, Action::Connect { wait_secs })),
            Event::AddressMalformed => Some((Stage::Aborted, Action::Abort)),
            _ => None,
        },
        Stage::Connecting => match event {
            Event::Connected => Some((Stage::Handshaking, Action::Handshake { wait_secs })),
            Event::ConnectFailed(detail) => Some(
                (Stage::Settled, Action::Settle(Outcome::Error(Failure::Connect(detail)))),
            ),
            _ => None,
        },
        Stage::Handshaking => match event {
            Event::HandshakeSucceeded => Some((Stage::Settled, Action::Settle(Outcome::Success))),
            Event::HandshakeFailed => Some(
                (Stage::Settled, Action::Settle(Outcome::Error(Failure::Handshake))),
            ),
            Event::HandshakeElapsed => Some((Stage::Settled, Action::Settle(Outcome::TimedOut))),
            _ => None,
        },
        _ => None,
    }
}

/// The stage reached from `stage` when the events arrive in this order;
/// events out of turn are passed over.
pub open spec fn stage_after(stage: Stage, events: Seq<Event>, wait_secs: u64) -> Stage
    decreases events.len(),
{
    if events.len() == 0 {
        stage
    } else {
        match step(stage, events[0], wait_secs) {
            Some((next, _)) => stage_after(next, events.drop_first(), wait_secs),
            None => stage_after(stage, events.drop_first(), wait_secs),
        }
    }
}

/// The outcomes settled on the way from `stage` when the events arrive in
/// this order.
pub open spec fn settled_along(stage: Stage, events: Seq<Event>, wait_secs: u64) -> Seq<Outcome>
    decreases events.len(),
{
    if events.len() == 0 {
        Seq::empty()
    } else {
        match step(stage, events[0], wait_secs) {
            Some((next, Action::Settle(outcome))) => seq![outcome] + settled_along(
                next,
                events.drop_first(),
                wait_secs,
            ),
            Some((next, _)) => settled_along(next, events.drop_first(), wait_secs),
            None => settled_along(stage, events.drop_first(), wait_secs),
        }
    }
}

/// Whatever events arrive and in whatever order, an attempt settles at most
/// one outcome; it settles exactly one if it ends as `Settled` without
/// having started there, and none if it ends anywhere else.
pub proof fn lemma_one_outcome_per_attempt(stage: Stage, events: Seq<Event>, wait_secs: u64)
    ensures
        settled_along(stage, events, wait_secs).len() <= 1,
        settled_along(stage, events, wait_secs).len() == 1 <==> (stage != Stage::Settled
            && stage_after(stage, events, wait_secs) == Stage::Settled),
        stage == Stage::Settled || stage == Stage::Aborted ==> stage_after(
            stage,
            events,
            wait_secs,
        ) == stage,
    decreases events.len(),
{
    if events.len() > 0 {
        match step(stage, events[0], wait_secs) {
            Some((next, _)) => lemma_one_outcome_per_attempt(
                next,
                events.drop_first(),
                wait_secs,
            ),
            None => lemma_one_outcome_per_attempt(stage, events.drop_first(), wait_secs),
        }
    }
}

/// An attempt ends once: no event moves a settled or aborted attempt.
pub proof fn lemma_terminal_stays(stage: Stage, event: Event, wait_secs: u64)
    requires
        stage == Stage::Settled || stage == Stage::Aborted,
    ensures
        step(stage, event, wait_secs) is None,
{
}

/// A target that refuses the connection, or does not answer within the wait,
/// is an error, and the handshake is never asked for; its log line starts
/// with the connect-error label and the transport's description.
pub proof fn lemma_failed_connect_is_error(
    detail: String,
    wait_secs: u64,
    before: Totals,
    host: Seq<char>,
    username: Seq<char>,
    password: Seq<char>,
)
    ensures
        attempt_line(Outcome::Error(Failure::Connect(detail)), host, username, password)
            == "connect err: "@ + detail@ + ": "@ + host + " "@ + username + " "@ + password,
        step(Stage::Connecting, Event::ConnectFailed(detail), wait_secs) == Some(
            (Stage::Settled, Action::Settle(Outcome::Error(Failure::Connect(detail)))),
        ),
        Outcome::Error(Failure::Connect(detail)).spec_kind() == OutcomeKind::Error,
        before.record(OutcomeKind::Error) == (Totals { err: before.err + 1, ..before }),
{
}

/// A handshake that does not finish within its wait settles the attempt as
/// timed out; that raises the timed-out total by one and leaves the other
/// two alone.
pub proof fn lemma_elapsed_handshake_times_out(wait_secs: u64, before: Totals)
    ensures
        step(Stage::Handshaking, Event::HandshakeElapsed, wait_secs) == Some(
            (Stage::Settled, Action::Settle(Outcome::TimedOut)),
        ),
        Outcome::TimedOut.spec_kind() == OutcomeKind::TimedOut,
        before.record(OutcomeKind::TimedOut) == (Totals {
            timed_out: before.timed_out + 1,
            ..before
        }),
{
}

/// A target that connects and whose handshake succeeds settles as a success;
/// that raises the total of goods by exactly one.
pub proof fn lemma_good_login_is_success(wait_secs: u64, before: Totals)
    ensures
        step(Stage::Addressing, Event::AddressParsed, wait_secs) == Some(
            (Stage::Connecting, Action::Connect { wait_secs }),
        ),
        step(Stage::Connecting, Event::Connected, wait_secs) == Some(
            (Stage::Handshaking, Action::Handshake { wait_secs }),
        ),
        step(Stage::Handshaking, Event::HandshakeSucceeded, wait_secs) == Some(
            (Stage::Settled, Action::Settle(Outcome::Success)),
        ),
        Outcome::Success.spec_kind() == OutcomeKind::Success,
        before.record(OutcomeKind::Success) == (Totals { goods: before.goods + 1, ..before }),
{
}

/// One target bound to the run's credentials and wait, on its way to an
/// outcome.
#[derive(Clone, Debug, PartialEq, Eq)]
pub struct Attempt {
    pub host: String,
    pub credentials: Credentials,
    pub wait_secs: u64,
    pub stage: Stage,
}

impl Attempt {
    /// A fresh attempt, whose address awaits parsing.
    pub fn new(host: String, credentials: Credentials, wait_secs: u64) -> (a: Attempt)
        ensures
            a == (Attempt { host, credentials, wait_secs, stage: Stage::Addressing }),
    {
        Attempt { host, credentials, wait_secs, stage: Stage::Addressing }
    }

    /// What the handshake of this attempt is given besides the connection.
    pub fn handshake_settings(&self) -> (s: HandshakeSettings)
        ensures
            s.display_width == DISPLAY_WIDTH,
            s.display_height == DISPLAY_HEIGHT,
            s.domain@ == Seq::<char>::empty(),
            s.username == self.credentials.username,
            s.password == self.credentials.password,
            !s.restricted_admin_mode,
            !s.auto_logon,
            !s.verify_certificate,
    {
        HandshakeSettings::for_login(&self.credentials)
    }

    /// The protocol client's configuration for the handshake of this
    /// attempt: the fixed display size, no domain, the attempt's username and
    /// password, and all three switches off.
    pub fn connector(&self) -> (connector: rdp::core::client::Connector)
        ensures
            connector_screen(connector) == (DISPLAY_WIDTH, DISPLAY_HEIGHT),
            connector_login(connector) == (
                Seq::<char>::empty(),
                self.credentials.username@,
                self.credentials.password@,
            ),
            connector_switches(connector) == (false, false, false),
    {
        self.handshake_settings().into_connector()
    }

    /// The log line of this attempt, had it settled with `outcome`.
    pub fn line(&self, outcome: &Outcome) -> (t: String)
        ensures
            t@ == attempt_line(
                *outcome,
                self.host@,
                self.credentials.username@,
                self.credentials.password@,
            ),
    {
        attempt_line_text(outcome, self.host.as_str(), &self.credentials)
    }

    /// The address text to parse for this attempt.
    pub fn address_text(&self) -> (t: String)
        ensures
            t@ == transport_address(self.host@),
    {
        transport_address_text(self.host.as_str())
    }

    /// Whether the attempt is over.
    pub fn is_over(&self) -> (b: bool)
        ensures
            b == (self.stage == Stage::Settled || self.stage == Stage::Aborted),
    {
        match self.stage {
            Stage::Settled => true,
            Stage::Aborted => true,
            _ => false,
        }
    }

    /// Takes one event. Where it answers the attempt's stage, the attempt
    /// moves on and the next action is returned; else nothing changes.
    pub fn advance(&mut self, event: Event) -> (r: Option<Action>)
        ensures
            final(self).host == old(self).host,
            final(self).credentials == old(self).credentials,
            final(self).wait_secs == old(self).wait_secs,
            match step(old(self).stage, event, old(self).wait_secs) {
                Some((stage, action)) => final(self).stage == stage && r == Some(action),
                None => final(self).stage == old(self).stage && r is None,
            },
    {
        match next_step(self.stage, event, self.wait_secs) {
            Some((stage, action)) => {
                self.stage = stage;
                Some(action)
            },
            None => None,
        }
    }
}

/// Creates the attempts of a run: exactly one per target, in the order of
/// the list, all of them at once, each with its own copy of the credentials
/// and the full wait.
pub fn dispatch(targets: &Vec<String>, credentials: &Credentials, wait_secs: u64) -> (attempts:
    Vec<Attempt>)
    ensures
        attempts@.len() == targets@.len(),
        forall|i: int|
            0 <= i < targets@.len() ==> #[trigger] attempts@[i] == (Attempt {
                host: targets@[i],
                credentials: *credentials,
                wait_secs,
                stage: Stage::Addressing,
            }),
{
    let mut attempts: Vec<Attempt> = Vec::new();
    let mut i: usize = 0;
    while i < targets.len()
        invariant
            i <= targets@.len(),
            attempts@.len() == i,
            forall|j: int|
                0 <= j < i ==> #[trigger] attempts@[j] == (Attempt {
                    host: targets@[j],
                    credentials: *credentials,
                    wait_secs,
                    stage: Stage::Addressing,
                }),
        decreases targets@.len() - i,
    {
        attempts.push(Attempt::new(targets[i].clone(), credentials.duplicate(), wait_secs));
        i = i + 1;
    }
    attempts
}

} // verus!
