//! Challenge identities: random 128-bit identifiers rendered as text.

use vstd::prelude::*;
use uuid::Uuid;

verus! {

/// Whether `c` is one of `0`..`9`, `a`..`f`.
pub open spec fn is_lower_hex(c: char) -> bool {
    ('0' <= c && c <= '9') || ('a' <= c && c <= 'f')
}

/// Whether `c` may stand at position `i` of a hyphenated identifier: a hyphen
/// at positions 8, 13, 18 and 23, a lower-case hexadecimal digit elsewhere.
pub open spec fn fits_hyphenated(i: int, c: char) -> bool {
    if i == 8 || i == 13 || i == 18 || i == 23 {
        c == '-'
    } else {
        is_lower_hex(c)
    }
}

/// Whether `text` has the hyphenated lower-case form
/// `xxxxxxxx-xxxx-xxxx-xxxx-xxxxxxxxxxxx`.
pub open spec fn is_hyphenated_uuid(text: Seq<char>) -> bool {
    &&& text.len() == 36
    &&& forall|i: int| 0 <= i < 36 ==> fits_hyphenated(i, #[trigger] text[i])
}

/// Whether `Uuid::parse_str` accepts `text`.
pub uninterp spec fn uuid_parses(text: Seq<char>) -> bool;

/// Whether `text` is accepted as a challenge identity: it is what
/// `Uuid::parse_str` accepts, and that includes every text of the hyphenated
/// lower-case form, in which challenges are issued.
pub open spec fn is_nonce_text(text: Seq<char>) -> bool {
    is_hyphenated_uuid(text) || uuid_parses(text)
}

/// Calls `Uuid::new_v4` and renders the identifier with `to_string`.
///
/// Which identifier comes back is left open. Its text always has the
/// hyphenated lower-case form. `Uuid::new_v4` panics where the operating
/// system cannot supply random bytes.
#[verifier::external_body]
pub(crate) fn random_uuid_text() -> (text: String)
    ensures
        is_hyphenated_uuid(text@),
{
    Uuid::new_v4().to_string()
}

/// Calls `Uuid::parse_str` and says whether it succeeded.
///
/// The result is a function of the text alone, named by [`uuid_parses`]. A
/// text in the hyphenated lower-case form is always accepted.
#[verifier::external_body]
pub(crate) fn uuid_parse_succeeds(text: &str) -> (ok: bool)
    ensures
        ok == uuid_parses(text@),
        is_hyphenated_uuid(text@) ==> ok,
{
    Uuid::parse_str(text).is_ok()
}

} // verus!
