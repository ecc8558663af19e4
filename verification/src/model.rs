//! The mathematical model of the nonce store.
//!
//! Time is a reading of a monotonic clock in nanoseconds. The model places no
//! demand on the readings it is given: every function below is defined for
//! every reading, including one that lies before a record's creation.

use vstd::prelude::*;
use crate::outcome::{NonceRejection, Outcome};

verus! {

/// Nanoseconds in one second.
pub const NANOS_PER_SECOND: u128 = 1_000_000_000;

/// What the store remembers about one challenge.
#[derive(Debug, Clone, Copy, PartialEq, Eq, Structural)]
pub struct NonceEntry {
    /// Clock reading at which the challenge was issued.
    pub created_at: u128,
    /// Whether the challenge has been consumed.
    pub used: bool,
}

/// The abstract state of a nonce store: one record per outstanding challenge,
/// and the window, in nanoseconds, that applies to all of them.
pub ghost struct StoreState {
    pub records: Map<Seq<char>, NonceEntry>,
    pub window: nat,
}

impl StoreState {
    /// A store without records.
    pub open spec fn empty(window: nat) -> StoreState {
        StoreState { records: Map::empty(), window }
    }

    /// Whether `token` has a record whose window has passed at `now`.
    pub open spec fn past_window(self, token: Seq<char>, now: u128) -> bool {
        now - self.records[token].created_at > self.window
    }

    /// Whether `token` can satisfy a verification request at `now`: it has a
    /// record, the record is unused, and the window has not passed.
    pub open spec fn usable(self, token: Seq<char>, now: u128) -> bool {
        &&& self.records.contains_key(token)
        &&& !self.records[token].used
        &&& !self.past_window(token, now)
    }

    /// What an attempt to consume `token` at `now` observes.
    pub open spec fn consumption(self, token: Seq<char>, now: u128) -> Result<(), NonceRejection> {
        if !self.records.contains_key(token) {
            Err(NonceRejection::Unknown)
        } else if self.records[token].used {
            Err(NonceRejection::AlreadyUsed)
        } else if self.past_window(token, now) {
            Err(NonceRejection::Expired)
        } else {
            Ok(())
        }
    }

    /// The state that an attempt to consume `token` at `now` leaves behind:
    /// an accepted challenge is marked used, an expired one is evicted, and
    /// nothing changes otherwise.
    pub open spec fn consume(self, token: Seq<char>, now: u128) -> StoreState {
        match self.consumption(token, now) {
            Ok(_) => StoreState {
                records: self.records.insert(
                    token,
                    NonceEntry { created_at: self.records[token].created_at, used: true },
                ),
                ..self
            },
            Err(NonceRejection::Expired) => StoreState {
                records: self.records.remove(token),
                ..self
            },
            Err(_) => self,
        }
    }

    /// The state after `token` has been recorded as issued at `now`.
    ///
    /// A record that `token` already had is replaced.
    pub open spec fn issue(self, token: Seq<char>, now: u128) -> StoreState {
        StoreState {
            records: self.records.insert(token, NonceEntry { created_at: now, used: false }),
            ..self
        }
    }

    /// Whether `out` and `after` are what an attempt to consume `token` at
    /// `now` observes and leaves behind.
    pub open spec fn consumes_to(
        self,
        token: Seq<char>,
        now: u128,
        out: Result<(), NonceRejection>,
        after: StoreState,
    ) -> bool {
        out == self.consumption(token, now) && after == self.consume(token, now)
    }

    /// The verdict on a proof that names `token`, submitted at `now`, given
    /// whether its signature holds.
    pub open spec fn verdict(self, token: Seq<char>, now: u128, signature_ok: bool) -> Outcome {
        Outcome::decide(self.consumption(token, now), signature_ok)
    }

    /// Whether `out` and `after` are the verdict and the state that a decision
    /// at `now` on a proof naming `token` gives.
    pub open spec fn decides_to(
        self,
        token: Seq<char>,
        now: u128,
        signature_ok: bool,
        out: Outcome,
        after: StoreState,
    ) -> bool {
        out == self.verdict(token, now, signature_ok) && after == self.consume(token, now)
    }
}

} // verus!
