//! Fresh identifiers.

use vstd::prelude::*;

verus! {

/// Whether `c` is a decimal digit or one of the letters `a` to `f`.
pub open spec fn is_lower_hex(c: char) -> bool {
    ('0' <= c && c <= '9') || ('a' <= c && c <= 'f')
}

/// The shape of a version-4 identifier in its hyphenated form: 36
/// characters, hyphens after the 8th, 12th, 16th and 20th digit, lower-case
/// hexadecimal digits elsewhere, and `4` as the first digit of the third group.
pub open spec fn is_random_id(s: Seq<char>) -> bool {
    &&& s.len() == 36
    &&& s[8] == '-' && s[13] == '-' && s[18] == '-' && s[23] == '-'
    &&& forall|i: int|
        0 <= i < 36 && i != 8 && i != 13 && i != 18 && i != 23 ==> is_lower_hex(#[trigger] s[i])
    &&& s[14] == '4'
}

/// Draws a fresh random identifier.
///
/// Trusted: the body calls `uuid::Uuid::new_v4` and formats the value with
/// its `Display` impl. The contract claims only the textual shape that every
/// such value has; which identifier comes back is left open, and two calls
/// may (and in practice do) differ. The call panics if the operating
/// system cannot supply random bytes.
#[verifier::external_body]
pub fn gen_id() -> (id: String)
    ensures
        is_random_id(id@),
{
    uuid::Uuid::new_v4().to_string()
}

} // verus!
