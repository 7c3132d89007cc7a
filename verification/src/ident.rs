//! 128-bit identifiers in the form the chat platform uses for subscriptions
//! and users. An identifier is held as its numeric value; reading, printing
//! and drawing one is left to the `uuid` crate.

use crate::encoding::hex_digit;
use uuid::Uuid;
use vstd::prelude::*;

verus! {

#[verifier::external_type_specification]
#[verifier::external_body]
pub struct ExUuidError(uuid::Error);

/// The value that the `uuid` crate reads from `text`, or `None` where it
/// rejects the text.
pub uninterp spec fn uuid_parsed(text: Seq<char>) -> Option<u128>;

/// The digit of `value` at place `k`, counted from the most significant of
/// its thirty-two hexadecimal digits.
pub open spec fn uuid_digit(value: u128, k: int) -> char {
    hex_digit(((value >> (((31 - k) * 4) as u128)) & 0xf) as int)
}

/// The digits of `value` at the places `from..to`.
pub open spec fn uuid_digits(value: u128, from: int, to: int) -> Seq<char> {
    Seq::new((to - from) as nat, |i: int| uuid_digit(value, from + i))
}

/// The hyphenated lower-case text of an identifier: its thirty-two
/// hexadecimal digits, with a hyphen after the eighth, the twelfth, the
/// sixteenth and the twentieth.
pub open spec fn uuid_text(value: u128) -> Seq<char> {
    uuid_digits(value, 0, 8) + seq!['-'] + uuid_digits(value, 8, 12) + seq!['-'] + uuid_digits(
        value,
        12,
        16,
    ) + seq!['-'] + uuid_digits(value, 16, 20) + seq!['-'] + uuid_digits(value, 20, 32)
}

/// `uuid::Uuid::try_parse`, with the identifier handed back as its numeric
/// value (`Uuid::as_u128`). Which texts are accepted is taken on trust to
/// depend on the text alone.
#[verifier::external_body]
pub(crate) fn parse_uuid(text: &str) -> (r: Result<u128, uuid::Error>)
    ensures
        match r {
            Ok(value) => uuid_parsed(text@) == Some(value),
            Err(_) => uuid_parsed(text@) is None,
        },
{
    Uuid::try_parse(text).map(|id| id.as_u128())
}

/// `uuid::Uuid::new_v4`: a freshly drawn random identifier, as its numeric
/// value. Nothing is promised about the value.
#[verifier::external_body]
pub(crate) fn random_uuid() -> u128 {
    Uuid::new_v4().as_u128()
}

/// The `Display` form of `uuid::Uuid::from_u128(value)`: the hyphenated
/// form, which `uuid::Uuid::try_parse` reads back as the same identifier.
#[verifier::external_body]
pub(crate) fn print_uuid(value: u128) -> (r: String)
    ensures
        r@ == uuid_text(value),
        uuid_parsed(r@) == Some(value),
{
    Uuid::from_u128(value).to_string()
}

} // verus!
