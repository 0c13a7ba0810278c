//! Artifact identifiers: random version 4 UUIDs in their hyphenated
//! lower-case form.

use crate::text::chars_of;
use vstd::prelude::*;
use vstd::string::*;

verus! {

/// Number of characters of an identifier.
pub const IDENTIFIER_LENGTH: usize = 36;

/// A lower-case hexadecimal digit.
pub open spec fn is_hex_digit(c: char) -> bool {
    ('0' <= c && c <= '9') || ('a' <= c && c <= 'f')
}

/// The four places of an identifier that hold a hyphen.
pub open spec fn is_hyphen_position(i: int) -> bool {
    i == 8 || i == 13 || i == 18 || i == 23
}

/// The strings that can be handed out as identifiers: thirty-six characters
/// in the groups 8-4-4-4-12, lower-case hexadecimal digits between the
/// hyphens, the version digit `4` and a variant digit among `8`, `9`, `a`, `b`.
pub open spec fn is_identifier(s: Seq<char>) -> bool {
    &&& s.len() == 36
    &&& forall|i: int|
        0 <= i < 36 ==> if is_hyphen_position(i) {
            #[trigger] s[i] == '-'
        } else {
            is_hex_digit(s[i])
        }
    &&& s[14] == '4'
    &&& (s[19] == '8' || s[19] == '9' || s[19] == 'a' || s[19] == 'b')
}

/// Calls `uuid::Uuid::new_v4` and renders the value with its `Display`
/// impl. Trusted: the value is random, so the contract states only the
/// shape that every outcome has. `new_v4` forces the version and variant
/// bits, and `Display` writes the hyphenated lower-case form. `new_v4`
/// panics where the operating system cannot supply random bytes.
#[verifier::external_body]
pub(crate) fn fresh_uuid_text() -> (r: String)
    ensures
        is_identifier(r@),
{
    uuid::Uuid::new_v4().to_string()
}

fn is_hex_char(c: char) -> (r: bool)
    ensures
        r == is_hex_digit(c),
{
    ('0' <= c && c <= '9') || ('a' <= c && c <= 'f')
}

/// Tests whether `raw` has the shape of an identifier.
pub fn is_valid(raw: &str) -> (r: bool)
    ensures
        r == is_identifier(raw@),
{
    let chars = chars_of(raw);
    if chars.len() != IDENTIFIER_LENGTH {
        return false;
    }
    let mut i: usize = 0;
    while i < IDENTIFIER_LENGTH
        invariant
            chars@ == raw@,
            raw@.len() == 36,
            i <= 36,
            forall|j: int|
                0 <= j < i ==> if is_hyphen_position(j) {
                    #[trigger] raw@[j] == '-'
                } else {
                    is_hex_digit(raw@[j])
                },
        decreases 36 - i,
    {
        let c = chars[i];
        let ok = if i == 8 || i == 13 || i == 18 || i == 23 {
            c == '-'
        } else {
            is_hex_char(c)
        };
        if !ok {
            return false;
        }
        i = i + 1;
    }
    let version = chars[14];
    let variant = chars[19];
    version == '4' && (variant == '8' || variant == '9' || variant == 'a' || variant == 'b')
}

} // verus!
