//! Identifiers of users: random version-4 UUIDs in their canonical text form.

use vstd::prelude::*;

verus! {

pub open spec fn is_lower_hex_digit(c: char) -> bool {
    ('0' <= c && c <= '9') || ('a' <= c && c <= 'f')
}

/// Positions of the hyphens in the hyphenated form.
pub open spec fn is_hyphen_position(i: int) -> bool {
    i == 8 || i == 13 || i == 18 || i == 23
}

/// `s` is a version-4, RFC 4122 variant UUID written as 36 characters:
/// lower-case hex digits in groups of 8-4-4-4-12 joined by hyphens, the
/// version digit `4` opening the third group and one of `8`, `9`, `a`, `b`
/// opening the fourth.
pub open spec fn is_v4_text(s: Seq<char>) -> bool {
    &&& s.len() == 36
    &&& forall|i: int|
        0 <= i < 36 ==> if is_hyphen_position(i) {
            s[i] == '-'
        } else {
            is_lower_hex_digit(s[i])
        }
    &&& s[14] == '4'
    &&& (s[19] == '8' || s[19] == '9' || s[19] == 'a' || s[19] == 'b')
}

/// Relies on `uuid::Uuid::new_v4`, which draws 128 random bits and sets the
/// version and variant bits, and on `Uuid`'s `Display`, which writes the
/// lower-case hyphenated form.
#[verifier::external_body]
pub(crate) fn new_user_id() -> (r: String)
    ensures
        is_v4_text(r@),
{
    uuid::Uuid::new_v4().to_string()
}

} // verus!
