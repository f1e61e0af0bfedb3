//! Correlation tokens: 128-bit identifiers drawn at random, and the text
//! form in which they travel to the host and back.

use vstd::prelude::*;

verus! {

/// The hexadecimal digit, in lower case, of a value below 16.
pub open spec fn hex_digit(value: u128) -> char {
    if value < 10 {
        (value + 48) as char
    } else {
        (value + 87) as char
    }
}

/// The places of the text form that hold a hyphen.
pub open spec fn is_hyphen_place(place: int) -> bool {
    place == 8 || place == 13 || place == 18 || place == 23
}

/// Which of the 32 digits stands at a place of the text form: the place
/// less the hyphens in front of it.
pub open spec fn digit_at_place(place: int) -> int {
    if place < 8 {
        place
    } else if place < 13 {
        place - 1
    } else if place < 18 {
        place - 2
    } else if place < 23 {
        place - 3
    } else {
        place - 4
    }
}

/// The value of one of the 32 digits of a token, the highest first.
pub open spec fn digit_value(id: u128, digit: int) -> u128 {
    (id >> ((4 * (31 - digit)) as u128)) & 0xf
}

/// The text form of a token: its 32 hexadecimal digits in lower case, the
/// highest first, in groups of 8, 4, 4, 4 and 12 with hyphens between
/// them.
pub open spec fn token_text(id: u128) -> Seq<char> {
    Seq::new(
        36,
        |place: int|
            if is_hyphen_place(place) {
                '-'
            } else {
                hex_digit(digit_value(id, digit_at_place(place)))
            },
    )
}

/// The token that a text spells, if it spells one.
pub uninterp spec fn token_of_text(text: Seq<char>) -> Option<u128>;

/// The bits of a token that say how it was made.
pub open spec fn kind_bits(id: u128) -> u128 {
    id & 0x0000_0000_0000_f000_c000_0000_0000_0000u128
}

/// The kind bits of every token drawn at random: version 4, variant 1.
pub open spec fn random_kind() -> u128 {
    0x0000_0000_0000_4000_8000_0000_0000_0000u128
}

/// Draws a token with `uuid::Uuid::new_v4` and gives its value as
/// `Uuid::as_u128` does. The value is random; all that holds of every
/// draw is that the version and variant bits are those of a random
/// identifier. `new_v4` aborts where the system has no source of random
/// bytes.
#[verifier::external_body]
pub(crate) fn draw_token() -> (id: u128)
    ensures
        kind_bits(id) == random_kind(),
{
    uuid::Uuid::new_v4().as_u128()
}

/// Writes a token with `uuid::Uuid::from_u128` and the `Display` of
/// `Uuid`, which is the hyphenated lower-case form. `Uuid::parse_str`
/// reads every form that the crate writes, so the text spells the token.
#[verifier::external_body]
pub(crate) fn write_token(id: u128) -> (text: String)
    ensures
        text@ == token_text(id),
        token_of_text(text@) == Some(id),
{
    uuid::Uuid::from_u128(id).to_string()
}

/// Reads a token with `uuid::Uuid::parse_str`; a text that is no
/// identifier gives `None`.
#[verifier::external_body]
pub(crate) fn read_token(text: &str) -> (id: Option<u128>)
    ensures
        id == token_of_text(text@),
{
    match uuid::Uuid::parse_str(text) {
        Ok(parsed) => Some(parsed.as_u128()),
        Err(_) => None,
    }
}

/// The text of a token drawn at random shows how it was made: the digit
/// behind the second hyphen is `4`, and the digit behind the third is one
/// of `8`, `9`, `a` and `b`.
pub proof fn lemma_random_token_text(id: u128)
    requires
        kind_bits(id) == random_kind(),
    ensures
        token_text(id).len() == 36,
        token_text(id)[14] == '4',
        token_text(id)[19] == '8' || token_text(id)[19] == '9' || token_text(id)[19] == 'a'
            || token_text(id)[19] == 'b',
{
    assert(id & 0x0000_0000_0000_f000_c000_0000_0000_0000u128
        == 0x0000_0000_0000_4000_8000_0000_0000_0000u128 ==> (id >> 76u128) & 0xf == 4 && 8 <= (id
        >> 60u128) & 0xf <= 11) by (bit_vector);
    assert(digit_value(id, 12) == (id >> 76u128) & 0xf);
    assert(digit_value(id, 16) == (id >> 60u128) & 0xf);
}

} // verus!
