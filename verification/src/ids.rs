//! Identifiers: a UUID is held as its 128-bit value, and turned into text
//! and back by the `uuid` crate.

use vstd::prelude::*;

verus! {

/// Lowercase hexadecimal digit of `d` (0..16).
pub open spec fn hex_lower(d: int) -> char {
    if d < 10 {
        (48 + d) as char
    } else {
        (87 + d) as char
    }
}

/// The 32 lowercase hex digits of `id`, most significant first.
pub open spec fn uuid_hex(id: u128) -> Seq<char> {
    Seq::new(32, |i: int| hex_lower(((id >> ((4 * (31 - i)) as u128)) & 15u128) as int))
}

/// Hyphenated text of a UUID (8-4-4-4-12 lowercase hex digits).
pub open spec fn uuid_text(id: u128) -> Seq<char> {
    let h = uuid_hex(id);
    h.subrange(0, 8) + seq!['-'] + h.subrange(8, 12) + seq!['-'] + h.subrange(12, 16) + seq!['-']
        + h.subrange(16, 20) + seq!['-'] + h.subrange(20, 32)
}

/// What `Uuid::parse_str` accepts and yields, as a 128-bit value.
pub uninterp spec fn spec_parse_uuid(s: Seq<char>) -> Option<u128>;

/// Calls `uuid::Uuid::parse_str`. The result is named: it depends on the text
/// alone (hyphenated, simple, braced or URN form, hex digits of either case).
#[verifier::external_body]
pub(crate) fn parse_uuid(s: &str) -> (r: Option<u128>)
    ensures
        r == spec_parse_uuid(s@),
{
    match uuid::Uuid::parse_str(s) {
        Ok(u) => Some(u.as_u128()),
        Err(_) => None,
    }
}

/// Calls `Uuid::from_u128(id).to_string()`: the hyphenated lowercase form,
/// which `Uuid::parse_str` reads back to the same value.
#[verifier::external_body]
pub(crate) fn uuid_to_string(id: u128) -> (r: String)
    ensures
        r@ == uuid_text(id),
        spec_parse_uuid(r@) == Some(id),
{
    uuid::Uuid::from_u128(id).to_string()
}

} // verus!
