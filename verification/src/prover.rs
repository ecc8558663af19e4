//! The prover's side: building a proof for a challenge, and reading what the
//! verifier answers.

use vstd::prelude::*;
use vstd::slice::slice_to_vec;
use crate::keys::{ed25519_signature, KeyPair};
use crate::outcome::{Reply, ReplyView, STATUS_UNAUTHORIZED};
use crate::payload::{Payload, PayloadView};
use crate::token::{is_nonce_text, uuid_parse_succeeds};

verus! {

/// Puts a proof together from its parts. Nothing is signed or checked here:
/// `sig` is taken as the signature, whatever it was made over.
pub fn build_payload(key_pair: KeyPair, message: &[u8], sig: Vec<u8>, nonce: String) -> (payload:
    Payload)
    ensures
        payload@ == (PayloadView {
            nonce: nonce@,
            message: message@,
            signature: sig@,
            public_key: key_pair@.public_key,
        }),
{
    let public_key = slice_to_vec(key_pair.public_key().as_slice());
    Payload { nonce, message: slice_to_vec(message), signature: sig, public_key }
}

/// Builds the proof that answers the challenge `nonce` with `message`.
///
/// The signature is made over `message`, unless `signed_instead` names other
/// bytes to sign: the proof then declares `message` but carries a signature
/// over those bytes.
pub fn build_proof(
    key_pair: KeyPair,
    message: &[u8],
    nonce: String,
    signed_instead: Option<&[u8]>,
) -> (payload: Payload)
    ensures
        payload@ == (PayloadView {
            nonce: nonce@,
            message: message@,
            signature: ed25519_signature(
                key_pair@.document,
                match signed_instead {
                    Some(other) => other@,
                    None => message@,
                },
            ),
            public_key: key_pair@.public_key,
        }),
{
    let message_to_sign = match signed_instead {
        Some(other) => other,
        None => message,
    };
    let sig = key_pair.sign(message_to_sign);
    build_payload(key_pair, message, sig, nonce)
}

/// Hands `nonce` on where `valid` says that it reads as a challenge identity,
/// and gives the reason for turning it down where not.
pub fn accept_nonce(nonce: String, valid: bool) -> (r: Result<String, String>)
    ensures
        match r {
            Ok(accepted) => valid && accepted@ == nonce@,
            Err(e) => !valid && e@ == "Invalid nonce"@,
        },
{
    if valid {
        Ok(nonce)
    } else {
        Err("Invalid nonce".to_owned())
    }
}

/// Accepts what a verifier sent as a challenge only if it reads as a
/// challenge identity.
pub fn check_nonce(nonce: String) -> (r: Result<String, String>)
    ensures
        match r {
            Ok(accepted) => is_nonce_text(nonce@) && accepted@ == nonce@,
            Err(e) => !is_nonce_text(nonce@) && e@ == "Invalid nonce"@,
        },
{
    let valid = uuid_parse_succeeds(nonce.as_str());
    accept_nonce(nonce, valid)
}

/// Whether `status` is one of the success codes, 200 to 299.
pub open spec fn is_success(status: u16) -> bool {
    200 <= status < 300
}

impl ReplyView {
    /// What a prover makes of a reply: success, or the reason for the failure.
    /// The reason is the text of the reply where the verifier refused the
    /// proof, and a fixed text for every other status.
    pub open spec fn reading(self) -> Result<(), Seq<char>> {
        if is_success(self.status) {
            Ok(())
        } else if self.status == STATUS_UNAUTHORIZED {
            Err(self.body)
        } else {
            Err("Failed to verify signature"@)
        }
    }
}

/// Reads the verifier's reply to a submitted proof.
pub fn verification_result(reply: Reply) -> (r: Result<(), String>)
    ensures
        match r {
            Ok(_) => reply@.reading() is Ok,
            Err(e) => reply@.reading() matches Err(reason) && reason == e@,
        },
{
    if 200 <= reply.status && reply.status < 300 {
        Ok(())
    } else if reply.status == STATUS_UNAUTHORIZED {
        Err(reply.body)
    } else {
        Err("Failed to verify signature".to_owned())
    }
}

} // verus!
