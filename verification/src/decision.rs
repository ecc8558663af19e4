//! The verification decision procedure.

use vstd::prelude::*;
use crate::outcome::{NonceRejection, Outcome};
use crate::payload::Payload;
use crate::store::NonceStore;

verus! {

/// Finishes a verification once the store has spoken: the signature is
/// checked only if the challenge was accepted.
///
/// The store is not needed here, so a caller that shares one store among many
/// requests can release it before the signature is checked.
pub fn conclude(consumed: Result<(), NonceRejection>, proof: &Payload) -> (out: Outcome)
    ensures
        out == Outcome::decide(consumed, proof@.signed()),
{
    let signature_ok = match consumed {
        Ok(_) => proof.is_signed(),
        Err(_) => false,
    };
    Outcome::from_checks(consumed, signature_ok)
}

/// Decides on `proof` at the clock reading `now`.
///
/// The challenge is consumed first. A proof whose challenge is accepted burns
/// it, whether or not the signature then holds.
pub fn verify_at(store: &mut NonceStore, proof: &Payload, now: u128) -> (out: Outcome)
    ensures
        out == old(store)@.verdict(proof@.nonce, now, proof@.signed()),
        final(store)@ == old(store)@.consume(proof@.nonce, now),
{
    let consumed = store.try_consume_at(proof.nonce.as_str(), now);
    conclude(consumed, proof)
}

/// Decides on `proof` at the current clock reading.
///
/// Behaves as [`verify_at`] does for some reading.
pub fn verify(store: &mut NonceStore, proof: &Payload) -> (out: Outcome)
    ensures
        exists|now: u128| #[trigger]
            old(store)@.decides_to(proof@.nonce, now, proof@.signed(), out, final(store)@),
{
    let consumed = store.try_consume(proof.nonce.as_str());
    let out = conclude(consumed, proof);
    proof {
        let now = choose|now: u128| #[trigger]
            old(store)@.consumes_to(proof@.nonce, now, consumed, store@);
        assert(old(store)@.decides_to(proof@.nonce, now, proof@.signed(), out, store@));
    }
    out
}

} // verus!
