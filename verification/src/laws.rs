//! What holds of every store, whatever is asked of it.
//!
//! The statements are about the model of the store ([`StoreState`]) and about
//! histories of calls ([`Step`]). The contracts of the store's methods say
//! that each call is one step of the model.

use vstd::prelude::*;
use crate::history::Step;
use crate::model::StoreState;
use crate::outcome::{refused, NonceRejection, Outcome, ReplyView, VerifyError};
use crate::payload::PayloadView;
use crate::signature::{PUBLIC_KEY_LEN, SIGNATURE_LEN};

verus! {

/// The state in which step `i + 1` is made is the state in which step `i` is
/// made, after step `i`.
proof fn lemma_before_next(start: StoreState, history: Seq<Step>, i: int)
    requires
        0 <= i < history.len(),
    ensures
        start.before(history, i + 1) == start.before(history, i).step(history[i]),
{
    assert(history.take(i + 1).drop_last() =~= history.take(i));
    assert(history.take(i + 1).last() == history[i]);
}

/// Whether `later` can follow `earlier` over steps that do not issue `token`:
/// the window is the same, no record of `token` has appeared, a used record
/// is still there and used, and a record that is there was created when it
/// was before.
spec fn follows(earlier: StoreState, later: StoreState, token: Seq<char>) -> bool {
    &&& later.window == earlier.window
    &&& later.records.contains_key(token) ==> earlier.records.contains_key(token)
    &&& later.records.contains_key(token) ==> later.records[token].created_at
        == earlier.records[token].created_at
    &&& earlier.records.contains_key(token) && earlier.records[token].used
        ==> later.records.contains_key(token) && later.records[token].used
}

/// Whether the two states hold the same about `token`.
spec fn same_record(earlier: StoreState, later: StoreState, token: Seq<char>) -> bool {
    &&& later.records.contains_key(token) <==> earlier.records.contains_key(token)
    &&& later.records[token] == earlier.records[token]
}

/// Over steps `from..to` that do not issue `token`, the state at `to` follows
/// the state at `from`; where none of the steps is an attempt on `token`
/// either, the record of `token` is untouched.
proof fn lemma_run_keeps(
    start: StoreState,
    history: Seq<Step>,
    token: Seq<char>,
    from: int,
    to: int,
)
    requires
        0 <= from <= to <= history.len(),
        forall|k: int| from <= k < to ==> !(#[trigger] history[k]).issues(token),
    ensures
        follows(start.before(history, from), start.before(history, to), token),
        (forall|k: int| from <= k < to ==> !(#[trigger] history[k]).consumes(token))
            ==> same_record(start.before(history, from), start.before(history, to), token),
    decreases to - from,
{
    if from < to {
        lemma_run_keeps(start, history, token, from, to - 1);
        lemma_before_next(start, history, to - 1);
    }
}

/// Where a record that the start state holds is gone before step `j`, an
/// earlier attempt on it has observed `Expired`.
proof fn lemma_evicted_by_expiry(start: StoreState, history: Seq<Step>, token: Seq<char>, j: int)
    requires
        0 <= j <= history.len(),
        start.records.contains_key(token),
        !start.before(history, j).records.contains_key(token),
    ensures
        exists|k: int|
            0 <= k < j && (#[trigger] history[k]).consumes(token) && start.observed(history, k)
                == refused(NonceRejection::Expired),
    decreases j,
{
    assert(history.take(0) =~= Seq::<Step>::empty());
    if j > 0 {
        lemma_before_next(start, history, j - 1);
        if !start.before(history, j - 1).records.contains_key(token) {
            lemma_evicted_by_expiry(start, history, token, j - 1);
        }
    }
}

/// A history that is one step longer ends in the state that the step makes
/// of the end of the shorter one.
pub proof fn law_run_extends(start: StoreState, history: Seq<Step>, step: Step)
    ensures
        start.run(history.push(step)) == start.run(history).step(step),
{
    assert(history.push(step).drop_last() =~= history);
}

/// A challenge that has just been issued is usable at every reading inside
/// its window, whatever the store held before.
pub proof fn law_issued_is_usable(start: StoreState, token: Seq<char>, issued_at: u128, now: u128)
    requires
        now - issued_at <= start.window,
    ensures
        start.issue(token, issued_at).usable(token, now),
        start.issue(token, issued_at).consumption(token, now) is Ok,
{
}

/// Single use. Of two attempts on one challenge, with no step between them
/// that issues the challenge again, at most one is accepted: if the earlier
/// one is, the later one observes `AlreadyUsed`.
///
/// The steps around and between the two are arbitrary, and so are all clock
/// readings.
pub proof fn law_single_use(
    start: StoreState,
    history: Seq<Step>,
    token: Seq<char>,
    i: int,
    j: int,
)
    requires
        0 <= i < j < history.len(),
        history[i].consumes(token),
        history[j].consumes(token),
        forall|k: int| i < k < j ==> !(#[trigger] history[k]).issues(token),
    ensures
        !(start.observed(history, i) is Ok && start.observed(history, j) is Ok),
        start.observed(history, i) is Ok ==> start.observed(history, j) == refused(
            NonceRejection::AlreadyUsed,
        ),
{
    lemma_before_next(start, history, i);
    lemma_run_keeps(start, history, token, i + 1, j);
}

/// A challenge that has no record, and is not issued, is unknown to every
/// attempt.
pub proof fn law_never_issued_is_unknown(
    start: StoreState,
    history: Seq<Step>,
    token: Seq<char>,
    j: int,
)
    requires
        0 <= j < history.len(),
        history[j].consumes(token),
        !start.records.contains_key(token),
        forall|k: int| 0 <= k < j ==> !(#[trigger] history[k]).issues(token),
    ensures
        start.observed(history, j) == refused(NonceRejection::Unknown),
{
    assert(history.take(0) =~= Seq::<Step>::empty());
    lemma_run_keeps(start, history, token, 0, j);
}

/// What the attempts on one challenge observe, in a history that does not
/// issue the challenge again and in which no attempt on it observes
/// `Expired`: an attempt is accepted, and is then the first to be; or it
/// observes `AlreadyUsed`; or it observes `Unknown`, and the challenge had no
/// record to begin with.
pub proof fn law_single_use_outcomes(
    start: StoreState,
    history: Seq<Step>,
    token: Seq<char>,
    j: int,
)
    requires
        0 <= j < history.len(),
        history[j].consumes(token),
        forall|k: int| 0 <= k < j ==> !(#[trigger] history[k]).issues(token),
        forall|k: int|
            0 <= k <= j && (#[trigger] history[k]).consumes(token) ==> start.observed(history, k)
                != refused(NonceRejection::Expired),
    ensures
        ({
            ||| start.observed(history, j) is Ok
            ||| start.observed(history, j) == refused(NonceRejection::AlreadyUsed)
            ||| start.observed(history, j) == refused(NonceRejection::Unknown)
                && !start.records.contains_key(token)
        }),
        start.observed(history, j) is Ok ==> forall|k: int|
            0 <= k < j && (#[trigger] history[k]).consumes(token) ==> !(start.observed(
                history,
                k,
            ) is Ok),
{
    if start.observed(history, j) == refused(NonceRejection::Unknown)
        && start.records.contains_key(token) {
        lemma_evicted_by_expiry(start, history, token, j);
    }
    assert forall|k: int|
        0 <= k < j && (#[trigger] history[k]).consumes(token) && start.observed(
            history,
            j,
        ) is Ok implies !(start.observed(history, k) is Ok) by {
        law_single_use(start, history, token, k, j);
    }
}

/// Expiration. An unused challenge is accepted at every reading up to the
/// end of its window, the end included, and at every later reading it is
/// reported as expired and evicted.
pub proof fn law_expiration(state: StoreState, token: Seq<char>, now: u128)
    requires
        state.records.contains_key(token),
        !state.records[token].used,
    ensures
        now <= state.records[token].created_at + state.window ==> state.consumption(token, now)
            is Ok,
        now > state.records[token].created_at + state.window ==> state.consumption(token, now)
            == refused(NonceRejection::Expired),
        now > state.records[token].created_at + state.window ==> !state.consume(
            token,
            now,
        ).records.contains_key(token),
{
}

/// Once the window of a challenge has passed, no attempt on it is accepted,
/// whatever happened before, as long as the challenge is not issued again. An
/// attempt that finds the challenge untouched observes `Expired`.
pub proof fn law_expired_is_never_accepted(
    start: StoreState,
    history: Seq<Step>,
    token: Seq<char>,
    j: int,
)
    requires
        0 <= j < history.len(),
        history[j].consumes(token),
        start.records.contains_key(token),
        history[j].now() > start.records[token].created_at + start.window,
        forall|k: int| 0 <= k < j ==> !(#[trigger] history[k]).issues(token),
    ensures
        !(start.observed(history, j) is Ok),
        !start.records[token].used && (forall|k: int|
            0 <= k < j ==> !(#[trigger] history[k]).consumes(token)) ==> start.observed(history, j)
            == refused(NonceRejection::Expired),
{
    assert(history.take(0) =~= Seq::<Step>::empty());
    lemma_run_keeps(start, history, token, 0, j);
}

/// Burn on failure. A proof that answers a freshly issued challenge inside
/// its window with a signature that does not hold is rejected for its
/// signature, and the challenge is spent: whatever is submitted for it
/// afterwards, at whatever time, with a signature that holds or not, is
/// rejected as a replay.
pub proof fn law_burn_on_failure(
    start: StoreState,
    issued_at: u128,
    first: PayloadView,
    first_at: u128,
    second: PayloadView,
    second_at: u128,
)
    requires
        first.nonce == second.nonce,
        first_at - issued_at <= start.window,
        !first.signed(),
    ensures
        start.issue(first.nonce, issued_at).verdict(first.nonce, first_at, first.signed())
            == Outcome::RejectedSignature,
        start.issue(first.nonce, issued_at).consume(first.nonce, first_at).verdict(
            second.nonce,
            second_at,
            second.signed(),
        ) == Outcome::RejectedNonce(NonceRejection::AlreadyUsed),
{
}

/// A refused challenge decides the verdict alone: the signature plays no part.
pub proof fn law_nonce_gates_signature(
    state: StoreState,
    token: Seq<char>,
    now: u128,
    signature_ok: bool,
)
    requires
        !state.usable(token, now),
    ensures
        state.verdict(token, now, signature_ok) is RejectedNonce,
        state.verdict(token, now, signature_ok) == state.verdict(token, now, !signature_ok),
{
}

/// A proof is valid exactly when its challenge is usable and its signature
/// holds; and a proof whose key or signature has the wrong length is never
/// valid.
pub proof fn law_valid_proofs(state: StoreState, proof: PayloadView, now: u128)
    ensures
        state.verdict(proof.nonce, now, proof.signed()) == Outcome::Valid <==> state.usable(
            proof.nonce,
            now,
        ) && proof.signed(),
        proof.public_key.len() != PUBLIC_KEY_LEN || proof.signature.len() != SIGNATURE_LEN
            ==> state.verdict(proof.nonce, now, proof.signed()) != Outcome::Valid,
{
}

/// Two different failures never share a reason: a caller can tell a replay
/// from an expired challenge, from an unknown one, from a bad signature, and
/// from a submission that could not be read.
pub proof fn law_reasons_are_distinct(a: VerifyError, b: VerifyError)
    requires
        a != b,
    ensures
        a.reason_text() != b.reason_text(),
{
    reveal_strlit("Malformed proof");
    reveal_strlit("Unknown nonce");
    reveal_strlit("Nonce already used");
    reveal_strlit("Nonce expired");
    reveal_strlit("Invalid Signature");
    assert(a.reason_text().len() != b.reason_text().len() || a.reason_text()[0]
        != b.reason_text()[0]);
}

/// A prover reads from the reply exactly what the verifier decided: success
/// for a valid proof, and for every other verdict the reason that belongs to
/// it.
pub proof fn law_reply_is_read_back(out: Outcome)
    ensures
        ReplyView::of(out.failure()).reading() is Ok <==> out == Outcome::Valid,
        out.failure() matches Some(err) ==> ReplyView::of(out.failure()).reading() matches Err(
            reason,
        ) && reason == err.reason_text(),
{
}

} // verus!
