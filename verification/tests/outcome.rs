use nonce_auth::outcome::{
    Reply, VerifyError, STATUS_BAD_REQUEST, STATUS_OK, STATUS_UNAUTHORIZED,
};
use nonce_auth::{NonceRejection, Outcome};

const ALL_ERRORS: [VerifyError; 5] = [
    VerifyError::MalformedProof,
    VerifyError::UnknownNonce,
    VerifyError::NonceAlreadyUsed,
    VerifyError::NonceExpired,
    VerifyError::SignatureInvalid,
];

#[test]
fn status_codes_are_the_usual_ones() {
    assert_eq!(STATUS_OK, 200);
    assert_eq!(STATUS_BAD_REQUEST, 400);
    assert_eq!(STATUS_UNAUTHORIZED, 401);
}

#[test]
fn each_error_has_its_reason() {
    assert_eq!(VerifyError::MalformedProof.reason(), "Malformed proof");
    assert_eq!(VerifyError::UnknownNonce.reason(), "Unknown nonce");
    assert_eq!(VerifyError::NonceAlreadyUsed.reason(), "Nonce already used");
    assert_eq!(VerifyError::NonceExpired.reason(), "Nonce expired");
    assert_eq!(VerifyError::SignatureInvalid.reason(), "Invalid Signature");
}

#[test]
fn reasons_are_pairwise_distinct() {
    for (i, a) in ALL_ERRORS.iter().enumerate() {
        for (j, b) in ALL_ERRORS.iter().enumerate() {
            assert_eq!(a.reason() == b.reason(), i == j);
        }
    }
}

#[test]
fn each_error_has_its_status() {
    assert_eq!(VerifyError::MalformedProof.status(), 400);
    assert_eq!(VerifyError::UnknownNonce.status(), 401);
    assert_eq!(VerifyError::NonceAlreadyUsed.status(), 401);
    assert_eq!(VerifyError::NonceExpired.status(), 401);
    assert_eq!(VerifyError::SignatureInvalid.status(), 401);
}

#[test]
fn nonce_rejections_map_to_their_errors() {
    assert_eq!(VerifyError::from_nonce(NonceRejection::Unknown), VerifyError::UnknownNonce);
    assert_eq!(
        VerifyError::from_nonce(NonceRejection::AlreadyUsed),
        VerifyError::NonceAlreadyUsed
    );
    assert_eq!(VerifyError::from_nonce(NonceRejection::Expired), VerifyError::NonceExpired);
}

#[test]
fn outcomes_map_to_their_errors() {
    assert_eq!(Outcome::Valid.error(), None);
    assert_eq!(Outcome::RejectedSignature.error(), Some(VerifyError::SignatureInvalid));
    assert_eq!(
        Outcome::RejectedNonce(NonceRejection::Unknown).error(),
        Some(VerifyError::UnknownNonce)
    );
    assert_eq!(
        Outcome::RejectedNonce(NonceRejection::AlreadyUsed).error(),
        Some(VerifyError::NonceAlreadyUsed)
    );
    assert_eq!(
        Outcome::RejectedNonce(NonceRejection::Expired).error(),
        Some(VerifyError::NonceExpired)
    );
}

#[test]
fn accepted_reply() {
    let reply = Reply::accepted();
    assert_eq!(reply.status, 200);
    assert_eq!(reply.body, "Signature verified successfully");
    assert_eq!(Outcome::Valid.reply(), reply);
}

#[test]
fn rejected_replies() {
    for err in ALL_ERRORS {
        let reply = Reply::rejected(err);
        assert_eq!(reply.status, err.status());
        assert_eq!(reply.body, err.reason());
    }
}

#[test]
fn replies_relay_the_outcome() {
    assert_eq!(
        Outcome::RejectedSignature.reply(),
        Reply { status: 401, body: "Invalid Signature".to_string() }
    );
    assert_eq!(
        Outcome::RejectedNonce(NonceRejection::Unknown).reply(),
        Reply { status: 401, body: "Unknown nonce".to_string() }
    );
    assert_eq!(
        Outcome::RejectedNonce(NonceRejection::AlreadyUsed).reply(),
        Reply { status: 401, body: "Nonce already used".to_string() }
    );
    assert_eq!(
        Outcome::RejectedNonce(NonceRejection::Expired).reply(),
        Reply { status: 401, body: "Nonce expired".to_string() }
    );
}
