//! What a new comment is stamped with: a random identifier for its writer
//! and the time of its creation.

use vstd::prelude::*;

verus! {

/// A lower-case hexadecimal digit.
pub open spec fn is_lower_hex(c: char) -> bool {
    ('0' <= c && c <= '9') || ('a' <= c && c <= 'f')
}

/// The hyphenated text of a random (version 4) UUID: 36 characters, hyphens
/// after the 8th, 12th, 16th and 20th digit, lower-case hexadecimal digits
/// elsewhere, and `4` as the 13th digit.
pub open spec fn is_uuid_text(s: Seq<char>) -> bool {
    &&& s.len() == 36
    &&& forall|i: int|
        0 <= i < 36 ==> if i == 8 || i == 13 || i == 18 || i == 23 {
            s[i] == '-'
        } else {
            is_lower_hex(#[trigger] s[i])
        }
    &&& s[14] == '4'
}

/// Calls `uuid::Uuid::new_v4` and formats the result as `Display` does.
///
/// Trusted: the text is the hyphenated lower-case form of a version 4 UUID.
/// Which one is left open: it is drawn from the operating system's
/// randomness afresh at every call.
#[verifier::external_body]
pub(crate) fn fresh_uuid() -> (text: String)
    ensures
        is_uuid_text(text@),
{
    uuid::Uuid::new_v4().to_string()
}

/// Calls `chrono::Utc::now` and formats the result with `to_rfc3339`.
///
/// Trusted: nothing. The text depends on the clock.
#[verifier::external_body]
pub(crate) fn utc_now() -> (text: String) {
    chrono::Utc::now().to_rfc3339()
}

} // verus!
