//! What a verifier can answer, and why.

use vstd::prelude::*;

verus! {

/// Why a challenge could not be consumed.
#[derive(Debug, Clone, Copy, PartialEq, Eq, Structural)]
pub enum NonceRejection {
    /// The store holds no record of the challenge: it was never issued, or it
    /// was evicted after its window had passed.
    Unknown,
    /// The challenge was consumed before.
    AlreadyUsed,
    /// The challenge was still unused, but its window had passed.
    Expired,
}

/// What an attempt observes that is refused for `reason`.
pub open spec fn refused(reason: NonceRejection) -> Result<(), NonceRejection> {
    Err(reason)
}

/// The verdict on a submitted proof.
#[derive(Debug, Clone, Copy, PartialEq, Eq, Structural)]
pub enum Outcome {
    /// The challenge was consumed by this very proof and the signature holds.
    Valid,
    /// The challenge was refused; the signature was not looked at.
    RejectedNonce(NonceRejection),
    /// The challenge was consumed by this very proof, but the signature does
    /// not hold. The challenge stays consumed.
    RejectedSignature,
}

impl Outcome {
    /// The verdict that follows from what the store said about the challenge
    /// and, where the challenge was accepted, from the signature check.
    ///
    /// `signature_ok` has no influence when the challenge was refused.
    pub open spec fn decide(consumed: Result<(), NonceRejection>, signature_ok: bool) -> Outcome {
        match consumed {
            Err(reason) => Outcome::RejectedNonce(reason),
            Ok(_) => if signature_ok {
                Outcome::Valid
            } else {
                Outcome::RejectedSignature
            },
        }
    }

    /// Computes [`Outcome::decide`].
    pub fn from_checks(consumed: Result<(), NonceRejection>, signature_ok: bool) -> (out: Outcome)
        ensures
            out == Outcome::decide(consumed, signature_ok),
    {
        match consumed {
            Err(reason) => Outcome::RejectedNonce(reason),
            Ok(_) => {
                if signature_ok {
                    Outcome::Valid
                } else {
                    Outcome::RejectedSignature
                }
            },
        }
    }
}

/// The conditions under which a submitted proof fails, each with a reason a
/// caller can tell from the others.
#[derive(Debug, Clone, Copy, PartialEq, Eq, Structural)]
pub enum VerifyError {
    /// The submission could not be read as a proof. Neither the store nor the
    /// signature was touched.
    MalformedProof,
    /// The challenge is not in the store.
    UnknownNonce,
    /// The challenge was consumed before: a replay.
    NonceAlreadyUsed,
    /// The challenge outlived its window before this attempt.
    NonceExpired,
    /// The challenge was consumed by this attempt, but the signature does not
    /// hold.
    SignatureInvalid,
}

impl VerifyError {
    /// The condition that a refusal by the store amounts to.
    pub open spec fn of_nonce(reason: NonceRejection) -> VerifyError {
        match reason {
            NonceRejection::Unknown => VerifyError::UnknownNonce,
            NonceRejection::AlreadyUsed => VerifyError::NonceAlreadyUsed,
            NonceRejection::Expired => VerifyError::NonceExpired,
        }
    }

    /// Computes [`VerifyError::of_nonce`].
    pub fn from_nonce(reason: NonceRejection) -> (err: VerifyError)
        ensures
            err == VerifyError::of_nonce(reason),
    {
        match reason {
            NonceRejection::Unknown => VerifyError::UnknownNonce,
            NonceRejection::AlreadyUsed => VerifyError::NonceAlreadyUsed,
            NonceRejection::Expired => VerifyError::NonceExpired,
        }
    }

    /// The reason given to the caller, as a sequence of characters.
    pub open spec fn reason_text(self) -> Seq<char> {
        match self {
            VerifyError::MalformedProof => "Malformed proof"@,
            VerifyError::UnknownNonce => "Unknown nonce"@,
            VerifyError::NonceAlreadyUsed => "Nonce already used"@,
            VerifyError::NonceExpired => "Nonce expired"@,
            VerifyError::SignatureInvalid => "Invalid Signature"@,
        }
    }

    /// The reason given to the caller.
    pub fn reason(self) -> (text: &'static str)
        ensures
            text@ == self.reason_text(),
    {
        match self {
            VerifyError::MalformedProof => "Malformed proof",
            VerifyError::UnknownNonce => "Unknown nonce",
            VerifyError::NonceAlreadyUsed => "Nonce already used",
            VerifyError::NonceExpired => "Nonce expired",
            VerifyError::SignatureInvalid => "Invalid Signature",
        }
    }

    /// The status code that goes with the condition: 400 for a submission that
    /// could not be read, 401 for every other failure.
    pub open spec fn status_code(self) -> u16 {
        match self {
            VerifyError::MalformedProof => STATUS_BAD_REQUEST,
            _ => STATUS_UNAUTHORIZED,
        }
    }

    /// Computes [`VerifyError::status_code`].
    pub fn status(self) -> (code: u16)
        ensures
            code == self.status_code(),
    {
        match self {
            VerifyError::MalformedProof => STATUS_BAD_REQUEST,
            _ => STATUS_UNAUTHORIZED,
        }
    }
}

/// Status code of a reply to an accepted proof.
pub const STATUS_OK: u16 = 200;

/// Status code of a reply to a submission that could not be read.
pub const STATUS_BAD_REQUEST: u16 = 400;

/// Status code of a reply to a proof that was refused.
pub const STATUS_UNAUTHORIZED: u16 = 401;

/// What is sent back for a submission: a status code and a line of text.
#[derive(Debug, Clone, PartialEq, Eq)]
pub struct Reply {
    pub status: u16,
    pub body: String,
}

/// The mathematical content of a [`Reply`].
pub ghost struct ReplyView {
    pub status: u16,
    pub body: Seq<char>,
}

impl View for Reply {
    type V = ReplyView;

    open spec fn view(&self) -> ReplyView {
        ReplyView { status: self.status, body: self.body@ }
    }
}

impl ReplyView {
    /// The reply to a submission that ended in `result`: `None` for an
    /// accepted proof, the failure otherwise.
    pub open spec fn of(result: Option<VerifyError>) -> ReplyView {
        match result {
            None => ReplyView { status: STATUS_OK, body: "Signature verified successfully"@ },
            Some(err) => ReplyView { status: err.status_code(), body: err.reason_text() },
        }
    }
}

impl Reply {
    /// The reply to an accepted proof.
    pub fn accepted() -> (reply: Reply)
        ensures
            reply@ == ReplyView::of(None),
    {
        Reply { status: STATUS_OK, body: "Signature verified successfully".to_owned() }
    }

    /// The reply to a submission that failed with `err`.
    pub fn rejected(err: VerifyError) -> (reply: Reply)
        ensures
            reply@ == ReplyView::of(Some(err)),
    {
        Reply { status: err.status(), body: err.reason().to_owned() }
    }
}

impl Outcome {
    /// The failure that the verdict stands for, `None` for `Valid`.
    pub open spec fn failure(self) -> Option<VerifyError> {
        match self {
            Outcome::Valid => None,
            Outcome::RejectedNonce(reason) => Some(VerifyError::of_nonce(reason)),
            Outcome::RejectedSignature => Some(VerifyError::SignatureInvalid),
        }
    }

    /// Computes [`Outcome::failure`].
    pub fn error(self) -> (err: Option<VerifyError>)
        ensures
            err == self.failure(),
    {
        match self {
            Outcome::Valid => None,
            Outcome::RejectedNonce(reason) => Some(VerifyError::from_nonce(reason)),
            Outcome::RejectedSignature => Some(VerifyError::SignatureInvalid),
        }
    }

    /// The reply that relays the verdict.
    pub fn reply(self) -> (reply: Reply)
        ensures
            reply@ == ReplyView::of(self.failure()),
    {
        match self.error() {
            None => Reply::accepted(),
            Some(err) => Reply::rejected(err),
        }
    }
}

} // verus!
