//! Random identifiers: reset codes, reset tokens and user ids.

use vstd::prelude::*;

verus! {

/// Number of decimal digits in a reset code.
pub const CODE_LEN: usize = 6;

/// Number of characters in a reset token.
pub const TOKEN_LEN: usize = 32;

/// Relies on nanoid's `format` with its default random source: it keeps
/// drawing characters of `alphabet` until the string is `size` bytes long,
/// which for an ASCII alphabet is `size` characters. It never returns for a
/// zero size or an empty alphabet, and panics on one over 255 characters.
#[verifier::external_body]
fn nanoid_format(alphabet: &[char], size: usize) -> (r: String)
    requires
        0 < size,
        0 < alphabet@.len() <= 255,
        forall|i: int| 0 <= i < alphabet@.len() ==> (alphabet@[i] as u32) < 128,
    ensures
        r@.len() == size,
        forall|i: int| 0 <= i < r@.len() ==> alphabet@.contains(#[trigger] r@[i]),
{
    nanoid::format(nanoid::rngs::default, alphabet, size)
}

/// A decimal digit.
pub open spec fn is_digit(c: char) -> bool {
    '0' <= c <= '9'
}

/// A well-formed reset code: six decimal digits.
pub open spec fn is_code(s: Seq<char>) -> bool {
    &&& s.len() == CODE_LEN
    &&& forall|i: int| 0 <= i < s.len() ==> is_digit(#[trigger] s[i])
}

/// A character of the token alphabet: ASCII letters and digits, `_` and `-`.
pub open spec fn is_token_char(c: char) -> bool {
    ||| 'a' <= c <= 'z'
    ||| 'A' <= c <= 'Z'
    ||| '0' <= c <= '9'
    ||| c == '_'
    ||| c == '-'
}

/// A well-formed reset token: thirty-two characters of the token alphabet.
pub open spec fn is_token(s: Seq<char>) -> bool {
    &&& s.len() == TOKEN_LEN
    &&& forall|i: int| 0 <= i < s.len() ==> is_token_char(#[trigger] s[i])
}

/// Draws a fresh reset code: six digits, each uniform over `0-9`.
pub fn gen_6_digit_code() -> (r: String)
    ensures
        is_code(r@),
{
    let digits: Vec<char> = vec!['0', '1', '2', '3', '4', '5', '6', '7', '8', '9'];
    assert forall|i: int| 0 <= i < digits@.len() implies is_digit(#[trigger] digits@[i]) && (
    digits@[i] as u32) < 128 by {}
    let r = nanoid_format(digits.as_slice(), CODE_LEN);
    assert forall|i: int| 0 <= i < r@.len() implies is_digit(#[trigger] r@[i]) by {
        let j = choose|j: int| 0 <= j < digits@.len() && digits@[j] == r@[i];
    }
    r
}

/// Relies on nanoid's `alphabet::SAFE`, the alphabet of its default ids:
/// sixty-four ASCII characters, `_`, `-`, the digits and the letters of both
/// cases.
#[verifier::external_body]
fn token_alphabet() -> (r: Vec<char>)
    ensures
        r@.len() == 64,
        forall|i: int| 0 <= i < r@.len() ==> is_token_char(#[trigger] r@[i]) && (r@[i] as u32) < 128,
{
    nanoid::alphabet::SAFE.to_vec()
}

/// Draws a fresh reset token: thirty-two characters, each uniform over the
/// sixty-four characters of the token alphabet.
pub fn gen_reset_token() -> (r: String)
    ensures
        is_token(r@),
{
    let alphabet = token_alphabet();
    let r = nanoid_format(alphabet.as_slice(), TOKEN_LEN);
    assert forall|i: int| 0 <= i < r@.len() implies is_token_char(#[trigger] r@[i]) by {
        let j = choose|j: int| 0 <= j < alphabet@.len() && alphabet@[j] == r@[i];
    }
    r
}

/// Length of a user identifier.
pub const USER_ID_LEN: usize = 21;

/// Draws a fresh user identifier: twenty-one characters of the token
/// alphabet.
pub fn gen_user_id() -> (r: String)
    ensures
        r@.len() == USER_ID_LEN,
        forall|i: int| 0 <= i < r@.len() ==> is_token_char(#[trigger] r@[i]),
{
    let alphabet = token_alphabet();
    let r = nanoid_format(alphabet.as_slice(), USER_ID_LEN);
    assert forall|i: int| 0 <= i < r@.len() implies is_token_char(#[trigger] r@[i]) by {
        let j = choose|j: int| 0 <= j < alphabet@.len() && alphabet@[j] == r@[i];
    }
    r
}

} // verus!
