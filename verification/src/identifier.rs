//! Identifier generation.  Each registration draws a fresh 128-bit random
//! token and renders it in the canonical hyphenated form: 36 characters,
//! with `-` at positions 8, 13, 18 and 23 and a lowercase hexadecimal digit
//! everywhere else.  The token space is large enough that no collision
//! retry is performed; uniqueness is a property of the randomness, not one
//! this crate can prove.

use vstd::prelude::*;

verus! {

/// The positions that hold a `-` in the canonical hyphenated form.
pub open spec fn is_hyphen_position(i: int) -> bool {
    i == 8 || i == 13 || i == 18 || i == 23
}

/// A lowercase hexadecimal digit.
pub open spec fn is_lower_hex_digit(c: char) -> bool {
    ('0' <= c && c <= '9') || ('a' <= c && c <= 'f')
}

/// The canonical rendering of a 128-bit token: 36 characters, hyphens at
/// the four fixed positions, lowercase hexadecimal digits elsewhere.
pub open spec fn is_canonical_identifier(s: Seq<char>) -> bool {
    &&& s.len() == 36
    &&& forall|i: int|
            0 <= i < 36 ==> (if is_hyphen_position(i) {
                s[i] == '-'
            } else {
                is_lower_hex_digit(s[i])
            })
}

/// Relies on `uuid::Uuid::new_v4` and its `Display` impl: a freshly drawn
/// random 128-bit token rendered in the hyphenated lowercase form.  The
/// token is random, so nothing here relates the results of two calls.
#[verifier::external_body]
pub(crate) fn random_token_string() -> (r: String)
    ensures
        is_canonical_identifier(r@),
{
    uuid::Uuid::new_v4().to_string()
}

} // verus!
