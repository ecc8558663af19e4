//! Ed25519 signature verification, done by `ring`.

use vstd::prelude::*;
use ring::signature::{UnparsedPublicKey, ED25519};

verus! {

/// Length in bytes of an encoded Ed25519 public key.
pub const PUBLIC_KEY_LEN: usize = 32;

/// Length in bytes of an Ed25519 signature.
pub const SIGNATURE_LEN: usize = 64;

/// Whether `ring` accepts `signature` as an Ed25519 signature over exactly
/// `message` under `public_key`.
pub uninterp spec fn ed25519_verifies(
    public_key: Seq<u8>,
    message: Seq<u8>,
    signature: Seq<u8>,
) -> bool;

/// Whether `signature` holds for `message` under `public_key`: the key and the
/// signature have the lengths of their encodings, and `ring` accepts the three.
pub open spec fn signature_holds(
    public_key: Seq<u8>,
    message: Seq<u8>,
    signature: Seq<u8>,
) -> bool {
    &&& public_key.len() == PUBLIC_KEY_LEN
    &&& signature.len() == SIGNATURE_LEN
    &&& ed25519_verifies(public_key, message, signature)
}

/// Calls `ring::signature::UnparsedPublicKey::verify` with the algorithm
/// `ED25519` on the bytes as they are given.
///
/// The result is a function of the three byte strings alone, named by
/// [`ed25519_verifies`]. `ring` refuses a key that is not 32 bytes long and a
/// signature that is not 64 bytes long before it does any arithmetic.
#[verifier::external_body]
pub(crate) fn ed25519_verify(public_key: &[u8], message: &[u8], signature: &[u8]) -> (ok: bool)
    ensures
        ok == ed25519_verifies(public_key@, message@, signature@),
        ok ==> public_key@.len() == PUBLIC_KEY_LEN && signature@.len() == SIGNATURE_LEN,
{
    UnparsedPublicKey::new(&ED25519, public_key).verify(message, signature).is_ok()
}

} // verus!
