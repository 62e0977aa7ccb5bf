//! Numbers and identifiers as they appear in error texts.

use vstd::prelude::*;
use uuid::Uuid;

verus! {

/// The character of one decimal digit.
pub open spec fn digit_char(digit: int) -> char {
    ((48 + digit) as u8) as char
}

/// A number written in decimal, without leading zeros.
pub open spec fn decimal_text(number: usize) -> Seq<char>
    decreases number,
{
    if number < 10 {
        seq![digit_char(number as int)]
    } else {
        decimal_text(number / 10).push(digit_char(number as int % 10))
    }
}

/// The character of one hexadecimal digit, in lower case.
pub open spec fn hex_char(digit: int) -> char {
    if digit < 10 {
        ((48 + digit) as u8) as char
    } else {
        ((87 + digit) as u8) as char
    }
}

/// The character at place `i` of an identifier written out: 32 hexadecimal
/// digits, most significant first, in groups of 8, 4, 4, 4 and 12 with a
/// hyphen between them.
pub open spec fn uuid_char(id: u128, i: int) -> char {
    if i == 8 || i == 13 || i == 18 || i == 23 {
        '-'
    } else {
        let hyphens_before: int = if i > 23 {
            4
        } else if i > 18 {
            3
        } else if i > 13 {
            2
        } else if i > 8 {
            1
        } else {
            0
        };
        let place = i - hyphens_before;
        hex_char((id as int / vstd::arithmetic::power2::pow2((4 * (31 - place)) as nat) as int) % 16)
    }
}

/// An identifier written out in its 36 characters.
pub open spec fn uuid_text(id: u128) -> Seq<char> {
    Seq::new(36, |i: int| uuid_char(id, i))
}

/// `ToString::to_string` of `usize`: the number in decimal.
#[verifier::external_body]
pub(crate) fn decimal(number: usize) -> (text: String)
    ensures
        text@ == decimal_text(number),
{
    number.to_string()
}

/// `Uuid::from_u128` and the `to_string` of what it gives: the identifier
/// with that number, written as lower-case hexadecimal digits in hyphenated
/// groups.
#[verifier::external_body]
pub(crate) fn uuid_to_text(id: u128) -> (text: String)
    ensures
        text@ == uuid_text(id),
{
    Uuid::from_u128(id).to_string()
}

} // verus!
