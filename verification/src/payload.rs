//! The unit exchanged between prover and verifier.

use vstd::prelude::*;
use crate::signature::{ed25519_verify, signature_holds};

verus! {

/// A submitted proof: the challenge it answers, the message, the signature
/// over the message, and the public key the signature is claimed for.
///
/// The byte fields are carried exactly as given; nothing is trimmed, padded
/// or re-encoded on the way.
#[derive(Debug, Clone, PartialEq, Eq)]
pub struct Payload {
    pub nonce: String,
    pub message: Vec<u8>,
    pub signature: Vec<u8>,
    pub public_key: Vec<u8>,
}

/// The mathematical content of a [`Payload`].
pub ghost struct PayloadView {
    pub nonce: Seq<char>,
    pub message: Seq<u8>,
    pub signature: Seq<u8>,
    pub public_key: Seq<u8>,
}

impl View for Payload {
    type V = PayloadView;

    open spec fn view(&self) -> PayloadView {
        PayloadView {
            nonce: self.nonce@,
            message: self.message@,
            signature: self.signature@,
            public_key: self.public_key@,
        }
    }
}

impl PayloadView {
    /// Whether the signature holds for the message under the public key.
    pub open spec fn signed(self) -> bool {
        signature_holds(self.public_key, self.message, self.signature)
    }
}

impl Payload {
    /// Checks the signature over the message under the public key. The bytes
    /// are used as they stand.
    pub fn is_signed(&self) -> (ok: bool)
        ensures
            ok == self@.signed(),
    {
        ed25519_verify(
            self.public_key.as_slice(),
            self.message.as_slice(),
            self.signature.as_slice(),
        )
    }
}

} // verus!
