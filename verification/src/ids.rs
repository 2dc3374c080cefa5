//! Identifiers. Every id is a UUID, carried here as its 128-bit value; the
//! text forms come from the `uuid` crate.
use uuid::Uuid;
use crate::crypto::hex_char;
use vstd::arithmetic::power::pow;
use vstd::prelude::*;

verus! {

/// The UUID that `text` spells, if it spells one.
pub uninterp spec fn uuid_from_text(text: Seq<char>) -> Option<u128>;

/// The hex digit at place `i` of a UUID's 32, the most significant first.
pub open spec fn uuid_hex_digit(id: u128, i: int) -> char {
    hex_char(((id as int / pow(16, (31 - i) as nat)) % 16) as nat)
}

/// How many hyphens come before position `k` of the hyphenated form.
pub open spec fn hyphens_before(k: int) -> int {
    if k < 8 {
        0
    } else if k < 13 {
        1
    } else if k < 18 {
        2
    } else if k < 23 {
        3
    } else {
        4
    }
}

/// The hyphenated lowercase form of a UUID: its 32 hex digits, most
/// significant first, in groups of 8, 4, 4, 4 and 12 joined by hyphens.
pub open spec fn uuid_text(id: u128) -> Seq<char> {
    Seq::new(
        36,
        |k: int|
            if k == 8 || k == 13 || k == 18 || k == 23 {
                '-'
            } else {
                uuid_hex_digit(id, k - hyphens_before(k))
            },
    )
}

/// `uuid::Uuid::parse_str` (which `str::parse::<Uuid>` calls): the contract
/// says the result is the named parse of the text, `None` where the crate
/// reports an error.
#[verifier::external_body]
pub(crate) fn parse_uuid(text: &str) -> (id: Option<u128>)
    ensures
        id == uuid_from_text(text@),
{
    match Uuid::parse_str(text) {
        Ok(id) => Some(id.as_u128()),
        Err(_) => None,
    }
}

/// `uuid::Uuid::from_u128` and `to_string` (its `Display`): the contract says
/// the text is the hyphenated lowercase form of the id, whose bytes the crate
/// takes big-endian, and which `parse_str` reads back as the same id.
#[verifier::external_body]
pub(crate) fn format_uuid(id: u128) -> (text: String)
    ensures
        text@ == uuid_text(id),
        uuid_from_text(text@) == Some(id),
{
    Uuid::from_u128(id).to_string()
}

} // verus!
