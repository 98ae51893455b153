//! Outcomes of a single attempt and their classification.

use vstd::prelude::*;

verus! {

/// Why an attempt counts as an error.
#[derive(Clone, Debug, PartialEq, Eq)]
pub enum Failure {
    /// The transport connection could not be opened, or the wait for it
    /// elapsed. Carries the transport's own description.
    Connect(String),
    /// The transport was open, but the login negotiation was turned down.
    Handshake,
}

/// The one terminal result of an attempt.
#[derive(Clone, Debug, PartialEq, Eq)]
pub enum Outcome {
    Success,
    Error(Failure),
    TimedOut,
}

/// The counter an outcome feeds.
#[derive(PartialEq, Eq, Structural, Clone, Copy, Debug)]
pub enum OutcomeKind {
    Success,
    Error,
    TimedOut,
}

impl Outcome {
    pub open spec fn spec_kind(&self) -> OutcomeKind {
        match self {
            Outcome::Success => OutcomeKind::Success,
            Outcome::Error(_) => OutcomeKind::Error,
            Outcome::TimedOut => OutcomeKind::TimedOut,
        }
    }

    /// The counter this outcome feeds.
    #[verifier::when_used_as_spec(spec_kind)]
    pub fn kind(&self) -> (k: OutcomeKind)
        ensures
            k == self.spec_kind(),
    {
        match self {
            Outcome::Success => OutcomeKind::Success,
            Outcome::Error(_) => OutcomeKind::Error,
            Outcome::TimedOut => OutcomeKind::TimedOut,
        }
    }
}

/// The kinds of a sequence of outcomes, position by position.
pub open spec fn kinds_of(outcomes: Seq<Outcome>) -> Seq<OutcomeKind> {
    Seq::new(outcomes.len(), |i: int| outcomes[i].spec_kind())
}

} // verus!
