use nonce_auth::decision::{conclude, verify, verify_at};
use nonce_auth::keys::{generate_keypair, KeyPair};
use nonce_auth::prover::{build_payload, build_proof};
use nonce_auth::{NonceRejection, NonceStore, Outcome, Payload};

const SECOND: u128 = 1_000_000_000;
const MESSAGE: &[u8] = b"Hello, world!";

fn fresh_pair() -> KeyPair {
    generate_keypair().unwrap()
}

fn valid_proof(nonce: &str) -> Payload {
    build_proof(fresh_pair(), MESSAGE, nonce.to_string(), None)
}

#[test]
fn happy_path() {
    let mut store = NonceStore::new(5);
    let nonce = store.generate_nonce();
    let proof = build_proof(fresh_pair(), b"Hello, world!", nonce, None);
    assert_eq!(verify(&mut store, &proof), Outcome::Valid);
}

#[test]
fn replay_with_another_key_pair_is_rejected() {
    let mut store = NonceStore::new(5);
    let nonce = store.generate_nonce();
    let first = build_proof(fresh_pair(), MESSAGE, nonce.clone(), None);
    assert_eq!(verify(&mut store, &first), Outcome::Valid);
    let second = build_proof(fresh_pair(), MESSAGE, nonce.clone(), None);
    assert_ne!(first.public_key, second.public_key);
    assert_eq!(
        verify(&mut store, &second),
        Outcome::RejectedNonce(NonceRejection::AlreadyUsed)
    );
}

#[test]
fn replay_of_the_same_proof_is_rejected() {
    let mut store = NonceStore::new(5);
    let nonce = store.generate_nonce();
    let proof = valid_proof(&nonce);
    assert_eq!(verify(&mut store, &proof), Outcome::Valid);
    assert_eq!(
        verify(&mut store, &proof),
        Outcome::RejectedNonce(NonceRejection::AlreadyUsed)
    );
}

#[test]
fn wrong_message_signed_is_rejected() {
    let mut store = NonceStore::new(5);
    let nonce = store.generate_nonce();
    let proof = build_proof(fresh_pair(), b"Hello, world!", nonce, Some(b"RANDOM MESSAGE"));
    assert_eq!(proof.message, b"Hello, world!".to_vec());
    assert_eq!(verify(&mut store, &proof), Outcome::RejectedSignature);
}

#[test]
fn expired_challenge_is_rejected() {
    let mut store = NonceStore::new(5);
    store.issue_at("c".to_string(), 0);
    let proof = valid_proof("c");
    assert_eq!(
        verify_at(&mut store, &proof, 6 * SECOND),
        Outcome::RejectedNonce(NonceRejection::Expired)
    );
    // The record was evicted: the same proof now names an unknown challenge.
    assert_eq!(
        verify_at(&mut store, &proof, SECOND),
        Outcome::RejectedNonce(NonceRejection::Unknown)
    );
}

#[test]
fn proof_inside_the_window_is_valid() {
    let mut store = NonceStore::new(5);
    store.issue_at("c".to_string(), 0);
    let proof = valid_proof("c");
    assert_eq!(verify_at(&mut store, &proof, 5 * SECOND), Outcome::Valid);
}

#[test]
fn unknown_challenge_is_rejected_before_the_signature() {
    let mut store = NonceStore::new(5);
    let good = valid_proof("never-issued");
    assert_eq!(
        verify(&mut store, &good),
        Outcome::RejectedNonce(NonceRejection::Unknown)
    );
    let bad = build_proof(fresh_pair(), MESSAGE, "never-issued".to_string(), Some(b"other"));
    assert_eq!(
        verify(&mut store, &bad),
        Outcome::RejectedNonce(NonceRejection::Unknown)
    );
}

#[test]
fn burn_on_failure() {
    let mut store = NonceStore::new(5);
    let nonce = store.generate_nonce();
    let pair = fresh_pair();
    let good_signature = pair.sign(MESSAGE);
    let mut bad_signature = good_signature.clone();
    bad_signature[0] ^= 1;
    let public_key = pair.public_key().clone();
    let invalid = build_payload(pair, MESSAGE, bad_signature, nonce.clone());
    assert_eq!(verify(&mut store, &invalid), Outcome::RejectedSignature);
    // The corrected proof comes too late: the challenge is spent.
    let corrected = Payload {
        nonce,
        message: MESSAGE.to_vec(),
        signature: good_signature,
        public_key,
    };
    assert!(corrected.is_signed());
    assert_eq!(
        verify(&mut store, &corrected),
        Outcome::RejectedNonce(NonceRejection::AlreadyUsed)
    );
}

#[test]
fn malformed_key_or_signature_burns_the_challenge() {
    let mut store = NonceStore::new(5);
    store.issue_at("short-signature".to_string(), 0);
    store.issue_at("short-key".to_string(), 0);
    store.issue_at("empty".to_string(), 0);

    let mut proof = valid_proof("short-signature");
    proof.signature.truncate(63);
    assert_eq!(verify_at(&mut store, &proof, 0), Outcome::RejectedSignature);
    assert_eq!(
        verify_at(&mut store, &proof, 0),
        Outcome::RejectedNonce(NonceRejection::AlreadyUsed)
    );

    let mut proof = valid_proof("short-key");
    proof.public_key.truncate(31);
    assert_eq!(verify_at(&mut store, &proof, 0), Outcome::RejectedSignature);

    let proof = Payload {
        nonce: "empty".to_string(),
        message: Vec::new(),
        signature: Vec::new(),
        public_key: Vec::new(),
    };
    assert_eq!(verify_at(&mut store, &proof, 0), Outcome::RejectedSignature);
}

#[test]
fn conclude_checks_the_signature_of_an_accepted_challenge() {
    let good = valid_proof("c");
    assert_eq!(conclude(Ok(()), &good), Outcome::Valid);
    let mut bad = good.clone();
    bad.message.push(b'!');
    assert_eq!(conclude(Ok(()), &bad), Outcome::RejectedSignature);
}

#[test]
fn conclude_carries_the_reason_of_a_refused_challenge_through() {
    let good = valid_proof("c");
    for reason in [
        NonceRejection::Unknown,
        NonceRejection::AlreadyUsed,
        NonceRejection::Expired,
    ] {
        assert_eq!(conclude(Err(reason), &good), Outcome::RejectedNonce(reason));
    }
}

#[test]
fn from_checks_covers_every_case() {
    assert_eq!(Outcome::from_checks(Ok(()), true), Outcome::Valid);
    assert_eq!(Outcome::from_checks(Ok(()), false), Outcome::RejectedSignature);
    for reason in [
        NonceRejection::Unknown,
        NonceRejection::AlreadyUsed,
        NonceRejection::Expired,
    ] {
        for signature_ok in [true, false] {
            assert_eq!(
                Outcome::from_checks(Err(reason), signature_ok),
                Outcome::RejectedNonce(reason)
            );
        }
    }
}

#[test]
fn sequence_of_proofs_on_one_store() {
    let mut store = NonceStore::new(5);
    store.issue_at("a".to_string(), 0);
    store.issue_at("b".to_string(), SECOND);
    let a = valid_proof("a");
    let b = valid_proof("b");
    assert_eq!(verify_at(&mut store, &b, 6 * SECOND), Outcome::Valid);
    assert_eq!(
        verify_at(&mut store, &a, 6 * SECOND),
        Outcome::RejectedNonce(NonceRejection::Expired)
    );
    assert_eq!(
        verify_at(&mut store, &b, 6 * SECOND),
        Outcome::RejectedNonce(NonceRejection::AlreadyUsed)
    );
    assert_eq!(
        verify_at(&mut store, &a, 6 * SECOND),
        Outcome::RejectedNonce(NonceRejection::Unknown)
    );
}
