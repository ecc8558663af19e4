//! Ed25519 key pairs, generated and used by `ring`.
//!
//! A key pair is kept as its PKCS#8 document together with the public key
//! that `ring` reads from it. Whatever needs the private key hands the
//! document to `ring`.

use vstd::prelude::*;
use vstd::pervasive::unreached;
use ring::error::{KeyRejected, Unspecified};
use ring::rand::SystemRandom;
use ring::signature::Ed25519KeyPair;
use crate::signature::{PUBLIC_KEY_LEN, SIGNATURE_LEN};

verus! {

/// `ring::error::Unspecified`, the error of a failed key generation. It
/// carries no information.
#[verifier::external_type_specification]
#[verifier::external_body]
pub struct ExUnspecified(Unspecified);

/// `ring::error::KeyRejected`, the error of a rejected key document, held as
/// an opaque value.
#[verifier::external_type_specification]
#[verifier::external_body]
pub struct ExKeyRejected(KeyRejected);

/// The public key of the key pair that `Ed25519KeyPair::from_pkcs8` reads
/// from `document`; `None` where it rejects the document.
pub uninterp spec fn pkcs8_public_key(document: Seq<u8>) -> Option<Seq<u8>>;

/// The signature that `Ed25519KeyPair::sign` gives for `message` with the key
/// pair read from `document`.
pub uninterp spec fn ed25519_signature(document: Seq<u8>, message: Seq<u8>) -> Seq<u8>;

/// Calls `Ed25519KeyPair::generate_pkcs8` with a `SystemRandom` and copies the
/// document out. Nothing is claimed of what comes back: the key is random,
/// and the call fails where the system gives no random bytes.
#[verifier::external_body]
pub(crate) fn generate_pkcs8() -> (generated: Result<Vec<u8>, Unspecified>) {
    match Ed25519KeyPair::generate_pkcs8(&SystemRandom::new()) {
        Ok(document) => Ok(document.as_ref().to_vec()),
        Err(err) => Err(err),
    }
}

/// Calls `Ed25519KeyPair::from_pkcs8` and copies the public key of the pair
/// out.
///
/// The result is a function of the document alone, named by
/// [`pkcs8_public_key`]. A public key of `ring` is 32 bytes long.
#[verifier::external_body]
pub(crate) fn read_pkcs8(document: &[u8]) -> (parsed: Result<Vec<u8>, KeyRejected>)
    ensures
        parsed matches Ok(key) ==> pkcs8_public_key(document@) == Some(key@) && key@.len()
            == PUBLIC_KEY_LEN,
        parsed is Err ==> pkcs8_public_key(document@) is None,
{
    match Ed25519KeyPair::from_pkcs8(document) {
        Ok(pair) => Ok(ring::signature::KeyPair::public_key(&pair).as_ref().to_vec()),
        Err(err) => Err(err),
    }
}

/// Calls `Ed25519KeyPair::from_pkcs8` and then `Ed25519KeyPair::sign` on
/// `message`, and copies the signature out.
///
/// The call fails exactly where the document is rejected. The signature is a
/// function of the document and the message alone, named by
/// [`ed25519_signature`], and 64 bytes long.
#[verifier::external_body]
pub(crate) fn sign_with_pkcs8(document: &[u8], message: &[u8]) -> (signed: Result<
    Vec<u8>,
    KeyRejected,
>)
    ensures
        signed matches Ok(sig) ==> pkcs8_public_key(document@) is Some && sig@
            == ed25519_signature(document@, message@) && sig@.len() == SIGNATURE_LEN,
        signed is Err ==> pkcs8_public_key(document@) is None,
{
    match Ed25519KeyPair::from_pkcs8(document) {
        Ok(pair) => Ok(pair.sign(message).as_ref().to_vec()),
        Err(err) => Err(err),
    }
}

/// An Ed25519 key pair.
pub struct KeyPair {
    pkcs8: Vec<u8>,
    public_key: Vec<u8>,
}

/// The mathematical content of a [`KeyPair`].
pub ghost struct KeyPairView {
    /// The PKCS#8 document that holds the private key.
    pub document: Seq<u8>,
    /// The encoded public key.
    pub public_key: Seq<u8>,
}

impl View for KeyPair {
    type V = KeyPairView;

    closed spec fn view(&self) -> KeyPairView {
        KeyPairView { document: self.pkcs8@, public_key: self.public_key@ }
    }
}

impl KeyPair {
    /// The public key is the one `ring` reads from the document.
    #[verifier::type_invariant]
    spec fn well_formed(self) -> bool {
        &&& pkcs8_public_key(self.pkcs8@) == Some(self.public_key@)
        &&& self.public_key@.len() == PUBLIC_KEY_LEN
    }

    /// Reads a key pair from an unencrypted PKCS#8 v2 document.
    ///
    /// Succeeds exactly on the documents that `ring` accepts.
    pub fn from_pkcs8(document: Vec<u8>) -> (r: Result<KeyPair, String>)
        ensures
            match pkcs8_public_key(document@) {
                Some(key) => r matches Ok(pair) && pair@ == (KeyPairView {
                    document: document@,
                    public_key: key,
                }),
                None => r matches Err(e) && e@ == "Failed to parse Ed25519 Key Pair"@,
            },
    {
        match read_pkcs8(document.as_slice()) {
            Ok(public_key) => Ok(KeyPair { pkcs8: document, public_key }),
            Err(_) => Err("Failed to parse Ed25519 Key Pair".to_owned()),
        }
    }

    /// The encoded public key, 32 bytes.
    pub fn public_key(&self) -> (key: &Vec<u8>)
        ensures
            key@ == self@.public_key,
            key@.len() == PUBLIC_KEY_LEN,
            pkcs8_public_key(self@.document) == Some(key@),
    {
        proof {
            use_type_invariant(self);
        }
        &self.public_key
    }

    /// The PKCS#8 document the pair was read from.
    pub fn pkcs8(&self) -> (document: &Vec<u8>)
        ensures
            document@ == self@.document,
    {
        &self.pkcs8
    }

    /// Signs `message` as it stands.
    pub fn sign(&self, message: &[u8]) -> (sig: Vec<u8>)
        ensures
            sig@ == ed25519_signature(self@.document, message@),
            sig@.len() == SIGNATURE_LEN,
    {
        proof {
            use_type_invariant(self);
        }
        match sign_with_pkcs8(self.pkcs8.as_slice(), message) {
            Ok(sig) => sig,
            Err(_) => unreached(),
        }
    }
}

/// What [`generate_keypair`] returns for each thing the generator can hand
/// back: the key pair read from the generated document, or the reason it
/// could not be had.
pub fn keypair_from_generated(generated: Result<Vec<u8>, Unspecified>) -> (r: Result<
    KeyPair,
    String,
>)
    ensures
        match generated {
            Err(_) => r matches Err(e) && e@ == "Failed to generate Ed25519 Key Pair"@,
            Ok(document) => match pkcs8_public_key(document@) {
                Some(key) => r matches Ok(pair) && pair@ == (KeyPairView {
                    document: document@,
                    public_key: key,
                }),
                None => r matches Err(e) && e@ == "Failed to parse Ed25519 Key Pair"@,
            },
        },
{
    match generated {
        Err(_) => Err("Failed to generate Ed25519 Key Pair".to_owned()),
        Ok(document) => KeyPair::from_pkcs8(document),
    }
}

/// Generates a fresh key pair.
///
/// Which key comes back is left to the system's random source; the pair that
/// does is well formed, and a failure carries one of the two reasons of
/// [`keypair_from_generated`].
pub fn generate_keypair() -> (r: Result<KeyPair, String>)
    ensures
        match r {
            Ok(pair) => pkcs8_public_key(pair@.document) == Some(pair@.public_key),
            Err(e) => e@ == "Failed to generate Ed25519 Key Pair"@ || e@
                == "Failed to parse Ed25519 Key Pair"@,
        },
{
    keypair_from_generated(generate_pkcs8())
}

} // verus!
