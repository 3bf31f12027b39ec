//! Identifiers of jobs and items: 128-bit values, spelled as hyphenated hexadecimal text.

use vstd::arithmetic::power::pow;
use vstd::prelude::*;

verus! {

/// The value that a text spells as an identifier, or `None` where it spells none.
/// This is what `uuid::Uuid::parse_str` makes of the text; the accepted spellings
/// are those of that crate.
pub uninterp spec fn parsed_id(text: Seq<char>) -> Option<u128>;

/// The sixteen hexadecimal digits, lower case.
pub open spec fn hex_chars() -> Seq<char> {
    seq!['0', '1', '2', '3', '4', '5', '6', '7', '8', '9', 'a', 'b', 'c', 'd', 'e', 'f']
}

/// The `k`-th of the 32 hexadecimal digits of `id`, counted from the most significant.
pub open spec fn hex_digit(id: u128, k: int) -> int {
    (id as int / pow(16, (31 - k) as nat)) % 16
}

/// How many hyphens stand before position `i` of the hyphenated spelling.
pub open spec fn hyphens_before(i: int) -> int {
    if i > 23 {
        4
    } else if i > 18 {
        3
    } else if i > 13 {
        2
    } else if i > 8 {
        1
    } else {
        0
    }
}

/// The canonical spelling of an identifier: 32 lower-case hexadecimal digits in
/// groups of 8, 4, 4, 4 and 12, joined by hyphens.
pub open spec fn hyphenated(id: u128) -> Seq<char> {
    Seq::new(
        36,
        |i: int|
            if i == 8 || i == 13 || i == 18 || i == 23 {
                '-'
            } else {
                hex_chars()[hex_digit(id, i - hyphens_before(i))]
            },
    )
}

/// Whether the canonical spelling of `id` reads back as `id`.
pub open spec fn reads_back(id: u128) -> bool {
    parsed_id(hyphenated(id)) == Some(id)
}

/// Whether `id` carries the marks of a randomly drawn identifier: version 4 in the
/// thirteenth hexadecimal digit, and `10` in the two bits that open the seventeenth.
pub open spec fn is_random_form(id: u128) -> bool {
    id & 0x0000_0000_0000_f000_c000_0000_0000_0000u128
        == 0x0000_0000_0000_4000_8000_0000_0000_0000u128
}

/// Draws an identifier with `uuid::Uuid::new_v4`. Trusted: the value comes from the
/// system's random source, so nothing is claimed of it but the version and variant
/// marks that the crate sets on every value it draws.
#[verifier::external_body]
pub(crate) fn random_id() -> (id: u128)
    ensures
        is_random_form(id),
{
    uuid::Uuid::new_v4().as_u128()
}

/// Spells an identifier with `uuid::Uuid::hyphenated`. Trusted: the text is the
/// canonical spelling, and `uuid::Uuid::parse_str` reads it back as the same value.
#[verifier::external_body]
pub(crate) fn id_text(id: u128) -> (text: String)
    ensures
        text@ == hyphenated(id),
        parsed_id(text@) == Some(id),
{
    uuid::Uuid::from_u128(id).hyphenated().to_string()
}

/// Reads an identifier with `uuid::Uuid::parse_str`. Trusted: the result is named
/// by [`parsed_id`], a function of the text alone.
#[verifier::external_body]
pub(crate) fn parse_id(text: &str) -> (id: Option<u128>)
    ensures
        id == parsed_id(text@),
{
    match uuid::Uuid::parse_str(text) {
        Ok(u) => Some(u.as_u128()),
        Err(_) => None,
    }
}

} // verus!
