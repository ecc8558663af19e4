//! The two operations a verifier offers to remote callers, and the state it
//! is launched with.

use vstd::prelude::*;
use crate::decision::verify;
use crate::model::{StoreState, NANOS_PER_SECOND};
use crate::outcome::{Reply, ReplyView, VerifyError};
use crate::payload::Payload;
use crate::store::NonceStore;
use crate::token::is_hyphenated_uuid;

verus! {

/// The window, in seconds, of the challenges of a verifier that is launched
/// with [`rocket`].
pub const EXPIRATION_SECONDS: u64 = 5;

/// The operation "request a challenge": issues one from `store`.
pub fn nonce(store: &mut NonceStore) -> (token: String)
    ensures
        is_hyphenated_uuid(token@),
        exists|now: u128| final(store)@ == #[trigger] old(store)@.issue(token@, now),
{
    store.generate_nonce()
}

/// The operation "submit a proof": decides on what was submitted and gives
/// the reply to send back.
///
/// `submitted` is `None` where the submission could not be read as a proof;
/// the store is left alone then.
pub fn verify_signature(submitted: Option<&Payload>, store: &mut NonceStore) -> (reply: Reply)
    ensures
        submitted is None ==> final(store)@ == old(store)@ && reply@ == ReplyView::of(
            Some(VerifyError::MalformedProof),
        ),
        submitted matches Some(proof) ==> exists|now: u128|
            final(store)@ == #[trigger] old(store)@.consume(proof@.nonce, now) && reply@
                == ReplyView::of(
                old(store)@.verdict(proof@.nonce, now, proof@.signed()).failure(),
            ),
{
    match submitted {
        None => Reply::rejected(VerifyError::MalformedProof),
        Some(proof) => {
            let out = verify(store, proof);
            proof {
                let now = choose|now: u128| #[trigger]
                    old(store)@.decides_to(proof@.nonce, now, proof@.signed(), out, store@);
                assert(store@ == old(store)@.consume(proof@.nonce, now));
            }
            out.reply()
        },
    }
}

/// The state a verifier is launched with: a store without challenges, whose
/// window is [`EXPIRATION_SECONDS`].
pub fn rocket() -> (store: NonceStore)
    ensures
        store@ == StoreState::empty((EXPIRATION_SECONDS * NANOS_PER_SECOND) as nat),
{
    NonceStore::new(EXPIRATION_SECONDS)
}

} // verus!
