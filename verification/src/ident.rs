//! Identifiers of records and owners: UUIDs, kept as their 128-bit numbers.
use vstd::prelude::*;

verus! {

/// The number of the UUID that a text denotes to `uuid::Uuid::parse_str`, or
/// `None` where that function rejects the text.
pub uninterp spec fn parsed_uuid(text: Seq<char>) -> Option<u128>;

/// The place among the 32 digits of a UUID of the character at place `at`
/// of its text, where `at` is no place of a hyphen.
pub open spec fn digit_place(at: int) -> int {
    if at < 8 {
        at
    } else if at < 13 {
        at - 1
    } else if at < 18 {
        at - 2
    } else if at < 23 {
        at - 3
    } else {
        at - 4
    }
}

/// The digit at a place among the 32 hexadecimal digits of a number, the
/// most significant first.
pub open spec fn hex_digit_at(id: u128, place: int) -> char {
    "0123456789abcdef"@[((id >> (((31 - place) * 4) as u128)) & 0xf) as int]
}

/// The text of the UUID with a given number: 32 lower-case hexadecimal
/// digits in groups of 8, 4, 4, 4 and 12, parted by hyphens.
pub open spec fn uuid_text(id: u128) -> Seq<char> {
    Seq::new(
        36,
        |at: int|
            if at == 8 || at == 13 || at == 18 || at == 23 {
                '-'
            } else {
                hex_digit_at(id, digit_place(at))
            },
    )
}

/// A number is that of a random (version 4) UUID in the RFC 4122 layout:
/// the version digit is 4 and the two variant bits are `10`.
pub open spec fn is_random_uuid(id: u128) -> bool {
    (id >> 76) & 0xf == 4 && (id >> 62) & 0x3 == 2
}

/// `uuid::Uuid::parse_str`, with the UUID handed out by `as_u128`. The
/// result depends on the text alone.
#[verifier::external_body]
fn parse_uuid(text: &str) -> (id: Option<u128>)
    ensures
        id == parsed_uuid(text@),
{
    match uuid::Uuid::parse_str(text) {
        Ok(parsed) => Some(parsed.as_u128()),
        Err(_) => None,
    }
}

/// `uuid::Uuid::new_v4`, handed out by `as_u128`: a random UUID. Which one
/// comes is left open; each has the version and variant bits of its kind.
#[verifier::external_body]
fn new_uuid() -> (id: u128)
    ensures
        is_random_uuid(id),
{
    uuid::Uuid::new_v4().as_u128()
}

/// `ToString::to_string` of the `uuid::Uuid` made by `from_u128`: the
/// hyphenated lower-case text of the UUID, as `uuid_text` spells it out.
#[verifier::external_body]
fn print_uuid(id: u128) -> (text: String)
    ensures
        text@ == uuid_text(id),
{
    uuid::Uuid::from_u128(id).to_string()
}

/// Reads an identifier from its text.
pub fn parse_id(text: &str) -> (id: Option<u128>)
    ensures
        id == parsed_uuid(text@),
{
    parse_uuid(text)
}

/// A new identifier, drawn at random.
pub fn fresh_id() -> (id: u128)
    ensures
        is_random_uuid(id),
{
    new_uuid()
}

/// The text of an identifier.
pub fn id_text(id: u128) -> (text: String)
    ensures
        text@ == uuid_text(id),
{
    print_uuid(id)
}

} // verus!
