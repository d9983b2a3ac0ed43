//! Account and record identifiers: 128-bit values, written as hyphenated
//! lower-case hexadecimal UUID text.

use vstd::prelude::*;
use vstd::arithmetic::power::pow;
use uuid::Uuid;

verus! {

/// The hexadecimal digit at place `place` of `id`, counted from the most
/// significant of its 32 digits.
pub open spec fn hex_digit(id: u128, place: int) -> char {
    "0123456789abcdef"@[(id as int / pow(16, (31 - place) as nat)) % 16]
}

/// How many hyphens stand before position `i` of the 36 characters.
pub open spec fn hyphens_before(i: int) -> int {
    if i > 23 {
        4
    } else if i > 18 {
        3
    } else if i > 13 {
        2
    } else if i > 8 {
        1
    } else {
        0
    }
}

/// The text of an identifier: 32 lower-case hexadecimal digits in groups
/// of 8, 4, 4, 4 and 12, with a hyphen between groups.
pub open spec fn uuid_text(id: u128) -> Seq<char> {
    Seq::new(
        36,
        |i: int|
            if i == 8 || i == 13 || i == 18 || i == 23 {
                '-'
            } else {
                hex_digit(id, i - hyphens_before(i))
            },
    )
}

/// `c` is a lower-case hexadecimal digit.
pub open spec fn is_hex_digit(c: char) -> bool {
    ('0' <= c <= '9') || ('a' <= c <= 'f')
}

/// The text of an identifier is 36 characters long: hyphens at the four
/// places between the groups, hexadecimal digits everywhere else.
pub proof fn lemma_uuid_text_shape(id: u128)
    ensures
        uuid_text(id).len() == 36,
        forall|i: int|
            0 <= i < 36 ==> if i == 8 || i == 13 || i == 18 || i == 23 {
                #[trigger] uuid_text(id)[i] == '-'
            } else {
                is_hex_digit(uuid_text(id)[i])
            },
{
    reveal_strlit("0123456789abcdef");
    assert forall|i: int| 0 <= i < 36 && !(i == 8 || i == 13 || i == 18 || i == 23) implies is_hex_digit(
        #[trigger] uuid_text(id)[i],
    ) by {
        let place = i - hyphens_before(i);
        let digit = (id as int / pow(16, (31 - place) as nat)) % 16;
        vstd::arithmetic::power::lemma_pow_positive(16, (31 - place) as nat);
        assert(0 <= digit < 16);
        assert(uuid_text(id)[i] == "0123456789abcdef"@[digit]);
    }
}

/// The identifier that a text stands for, in any of the forms the UUID
/// parser reads, or `None` where it reads none.
pub uninterp spec fn uuid_parsed(text: Seq<char>) -> Option<u128>;

/// Writes an identifier as text.
///
/// Calls `Uuid::from_u128` and the `Display` of the result, which is the
/// hyphenated lower-case form. The parser reads every form the crate
/// writes, so the text parses back to the same identifier.
#[verifier::external_body]
pub(crate) fn format_id(id: u128) -> (text: String)
    ensures
        text@ == uuid_text(id),
        uuid_parsed(text@) == Some(id),
{
    Uuid::from_u128(id).to_string()
}

/// Reads an identifier from text. Calls `Uuid::parse_str`.
#[verifier::external_body]
pub(crate) fn parse_id(text: &str) -> (id: Option<u128>)
    ensures
        id == uuid_parsed(text@),
{
    Uuid::parse_str(text).ok().map(|uuid| uuid.as_u128())
}

/// A new random identifier. Calls `Uuid::new_v4`; the value differs from
/// call to call, so nothing is claimed of it.
#[verifier::external_body]
pub(crate) fn random_id() -> u128 {
    Uuid::new_v4().as_u128()
}

} // verus!
