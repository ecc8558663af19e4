//! The nonce store: the single owner of every challenge record.

use vstd::prelude::*;
use vstd::hash_map::StringHashMap;
use std::time::Instant;
use crate::clock::{clock_origin, elapsed_since, whole_nanos};
use crate::model::{NonceEntry, StoreState, NANOS_PER_SECOND};
use crate::outcome::NonceRejection;
use crate::token::{is_hyphenated_uuid, random_uuid_text};

verus! {

/// Issues challenges and consumes them, each at most once.
///
/// All access to a record goes through the methods of this type, and each of
/// them takes the store by exclusive reference: two attempts on one challenge
/// can never overlap, so every history of a store is a sequence of calls.
pub struct NonceStore {
    nonces: StringHashMap<NonceEntry>,
    expiration_seconds: u64,
    origin: Instant,
}

impl View for NonceStore {
    type V = StoreState;

    closed spec fn view(&self) -> StoreState {
        StoreState {
            records: self.nonces@,
            window: (self.expiration_seconds * NANOS_PER_SECOND) as nat,
        }
    }
}

impl NonceStore {
    /// An empty store whose challenges stay usable for `expiration_seconds`
    /// after they were issued.
    pub fn new(expiration_seconds: u64) -> (store: Self)
        ensures
            store@ == StoreState::empty((expiration_seconds * NANOS_PER_SECOND) as nat),
    {
        Self { nonces: StringHashMap::new(), expiration_seconds, origin: clock_origin() }
    }

    /// Records `token` as issued at the clock reading `now`.
    pub fn issue_at(&mut self, token: String, now: u128)
        ensures
            final(self)@ == old(self)@.issue(token@, now),
    {
        self.nonces.insert(token, NonceEntry { created_at: now, used: false });
    }

    /// Attempts to consume `nonce` at the clock reading `now`, as one
    /// indivisible step.
    ///
    /// Returns `Ok` exactly when the challenge is usable at `now`, and marks it
    /// used in that case. An unused challenge whose window has passed is
    /// evicted and reported as expired.
    pub fn try_consume_at(&mut self, nonce: &str, now: u128) -> (out: Result<(), NonceRejection>)
        ensures
            out == old(self)@.consumption(nonce@, now),
            out is Ok <==> old(self)@.usable(nonce@, now),
            final(self)@ == old(self)@.consume(nonce@, now),
    {
        let entry = match self.nonces.get(nonce) {
            None => {
                return Err(NonceRejection::Unknown);
            },
            Some(entry) => *entry,
        };
        if entry.used {
            return Err(NonceRejection::AlreadyUsed);
        }
        let window: u128 = (self.expiration_seconds as u128) * NANOS_PER_SECOND;
        if now > entry.created_at && now - entry.created_at > window {
            self.nonces.remove(nonce);
            return Err(NonceRejection::Expired);
        }
        let spent = NonceEntry { created_at: entry.created_at, used: true };
        self.nonces.insert(nonce.to_owned(), spent);
        Ok(())
    }

    /// Issues a challenge: draws a fresh random identity, records it as live
    /// at the current clock reading, and returns it.
    ///
    /// Which identity is drawn and what the clock reads is not known
    /// beforehand; the store changes as [`NonceStore::issue_at`] says for the
    /// identity that is returned and for some reading.
    pub fn generate_nonce(&mut self) -> (token: String)
        ensures
            is_hyphenated_uuid(token@),
            exists|now: u128| final(self)@ == #[trigger] old(self)@.issue(token@, now),
    {
        let token = random_uuid_text();
        let now = self.now();
        self.issue_at(token.clone(), now);
        token
    }

    /// Attempts to consume `nonce` at the current clock reading.
    ///
    /// Behaves as [`NonceStore::try_consume_at`] does for some reading.
    pub fn try_consume(&mut self, nonce: &str) -> (out: Result<(), NonceRejection>)
        ensures
            exists|now: u128| #[trigger] old(self)@.consumes_to(nonce@, now, out, final(self)@),
    {
        let now = self.now();
        let out = self.try_consume_at(nonce, now);
        assert(old(self)@.consumes_to(nonce@, now, out, self@));
        out
    }

    /// Attempts to consume `nonce` at the current clock reading and says
    /// whether the challenge was accepted.
    pub fn verify_and_use_nonce(&mut self, nonce: &str) -> (accepted: bool)
        ensures
            exists|now: u128|
                accepted == old(self)@.usable(nonce@, now) && final(self)@ == #[trigger] old(
                    self,
                )@.consume(nonce@, now),
    {
        let now = self.now();
        self.try_consume_at(nonce, now).is_ok()
    }

    /// The window, in seconds, that applies to every challenge of this store.
    pub fn expiration_seconds(&self) -> (seconds: u64)
        ensures
            seconds * NANOS_PER_SECOND == self@.window,
    {
        self.expiration_seconds
    }

    /// Reads the clock: the nanoseconds that have passed since the store was
    /// made.
    ///
    /// What the clock reads depends on when it is asked, so nothing is
    /// promised of the number. Its callers hand it to [`NonceStore::issue_at`]
    /// and [`NonceStore::try_consume_at`], which say what happens at every
    /// reading.
    fn now(&self) -> u128 {
        let elapsed = elapsed_since(&self.origin);
        whole_nanos(&elapsed)
    }
}

} // verus!
