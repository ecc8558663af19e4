//! Histories of a nonce store: the calls made on it, in order.
//!
//! Every method of the store takes it by exclusive reference, so whatever
//! callers do, at the same time or one after the other, the store sees one
//! call after another. A history is that sequence.

use vstd::prelude::*;
use crate::model::StoreState;
use crate::outcome::NonceRejection;

verus! {

/// One call on a store, with the clock reading it was made at.
pub ghost enum Step {
    /// A challenge was recorded as issued.
    Issue { token: Seq<char>, now: u128 },
    /// An attempt was made to consume a challenge.
    Consume { token: Seq<char>, now: u128 },
}

impl Step {
    /// Whether the step issues `token`.
    pub open spec fn issues(self, token: Seq<char>) -> bool {
        self matches Step::Issue { token: t, .. } && t == token
    }

    /// Whether the step is an attempt to consume `token`.
    pub open spec fn consumes(self, token: Seq<char>) -> bool {
        self matches Step::Consume { token: t, .. } && t == token
    }

    /// The challenge the step is about.
    pub open spec fn token(self) -> Seq<char> {
        match self {
            Step::Issue { token, .. } => token,
            Step::Consume { token, .. } => token,
        }
    }

    /// The clock reading the step was made at.
    pub open spec fn now(self) -> u128 {
        match self {
            Step::Issue { now, .. } => now,
            Step::Consume { now, .. } => now,
        }
    }
}

impl StoreState {
    /// The state after one step.
    pub open spec fn step(self, step: Step) -> StoreState {
        match step {
            Step::Issue { token, now } => self.issue(token, now),
            Step::Consume { token, now } => self.consume(token, now),
        }
    }

    /// The state after the steps of `history`, taken in order.
    pub open spec fn run(self, history: Seq<Step>) -> StoreState
        decreases history.len(),
    {
        if history.len() == 0 {
            self
        } else {
            self.run(history.drop_last()).step(history.last())
        }
    }

    /// The state in which step `i` of `history` is made.
    pub open spec fn before(self, history: Seq<Step>, i: int) -> StoreState {
        self.run(history.take(i))
    }

    /// What step `i` of `history` observes, where it is an attempt to consume.
    pub open spec fn observed(self, history: Seq<Step>, i: int) -> Result<(), NonceRejection> {
        self.before(history, i).consumption(history[i].token(), history[i].now())
    }
}

} // verus!
