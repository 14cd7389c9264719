//! Identifiers for new records: random version 4 UUIDs in their usual text form.

use vstd::prelude::*;

verus! {

/// A decimal digit or one of the letters `a` to `f`.
pub open spec fn is_lower_hex(c: char) -> bool {
    ('0' <= c && c <= '9') || ('a' <= c && c <= 'f')
}

/// The text of a version 4 UUID: 32 lower-case hexadecimal digits in groups of
/// 8, 4, 4, 4 and 12 with a hyphen between the groups, the third group
/// starting with the version digit `4` and the fourth with one of `8`, `9`,
/// `a`, `b`.
pub open spec fn is_uuid_v4_text(s: Seq<char>) -> bool {
    &&& s.len() == 36
    &&& s[8] == '-' && s[13] == '-' && s[18] == '-' && s[23] == '-'
    &&& forall|i: int|
        0 <= i < 36 && i != 8 && i != 13 && i != 18 && i != 23 ==> is_lower_hex(#[trigger] s[i])
    &&& s[14] == '4'
    &&& (s[19] == '8' || s[19] == '9' || s[19] == 'a' || s[19] == 'b')
}

/// Draws a new random identifier.
///
/// Calls `uuid::Uuid::new_v4` and renders the result with its `Display`
/// impl. Nothing is proved here: the contract records that the crate masks
/// the version and variant bits into the random value and prints it
/// hyphenated in lower case. Which identifier comes back is left open, so two
/// calls are never known to differ. The call panics if the operating system
/// cannot supply random bytes.
#[verifier::external_body]
pub(crate) fn fresh_id() -> (id: String)
    ensures
        is_uuid_v4_text(id@),
{
    uuid::Uuid::new_v4().to_string()
}

} // verus!
