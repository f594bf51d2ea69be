//! Identifiers. Public ids are UUIDs, held as the `u128` whose big-endian
//! bytes are the UUID's bytes, so that the integer order is the UUID order.

use vstd::prelude::*;
use vstd::arithmetic::power2::pow2;
use uuid::Uuid;

verus! {

/// The lowercase hexadecimal character of a nibble.
pub open spec fn hex_digit_char(d: int) -> char {
    if d < 10 {
        ((48 + d) as u32) as char
    } else {
        ((87 + d) as u32) as char
    }
}

/// The `k`-th nibble of an id, counting from the most significant one.
pub open spec fn nibble(id: u128, k: int) -> int {
    (id as int / (pow2((4 * (31 - k)) as nat) as int)) % 16
}

/// Which nibble the character at position `p` of the hyphenated form shows.
pub open spec fn nibble_index(p: int) -> int {
    if p < 8 {
        p
    } else if p < 13 {
        p - 1
    } else if p < 18 {
        p - 2
    } else if p < 23 {
        p - 3
    } else {
        p - 4
    }
}

/// The hyphenated lowercase form of a UUID, such as
/// `67e55044-10b1-426f-9247-bb680e5fe0c8`.
pub open spec fn hyphenated_text(id: u128) -> Seq<char> {
    Seq::new(
        36,
        |p: int|
            if p == 8 || p == 13 || p == 18 || p == 23 {
                '-'
            } else {
                hex_digit_char(nibble(id, nibble_index(p)))
            },
    )
}

/// What `uuid::Uuid::parse_str` gives for a text: the id, or `None` where the
/// text is no UUID in any of the forms it accepts (simple, hyphenated, braced, urn).
pub uninterp spec fn parsed_uuid(text: Seq<char>) -> Option<u128>;

/// Bits that a random (version 4, RFC 4122 variant) UUID has fixed.
pub open spec fn v4_fixed_bits(id: u128) -> bool {
    id & 0x0000_0000_0000_f000_c000_0000_0000_0000u128
        == 0x0000_0000_0000_4000_8000_0000_0000_0000u128
}

/// Renders an id through `uuid::Uuid`'s `Display`, which writes the
/// hyphenated lowercase form (`fmt.rs`: `LowerHex` of `as_hyphenated`).
#[verifier::external_body]
pub fn uuid_text(id: u128) -> (s: String)
    ensures
        s@ == hyphenated_text(id),
{
    Uuid::from_u128(id).to_string()
}

/// Parses a text through `uuid::Uuid::parse_str`. The result is named
/// `parsed_uuid`; of it the contract states only that the hyphenated form of
/// an id, which the parser accepts as its documentation says, gives that id.
#[verifier::external_body]
pub fn parse_uuid(text: &str) -> (r: Option<u128>)
    ensures
        r == parsed_uuid(text@),
        forall|x: u128| text@ == hyphenated_text(x) ==> r == Some(x),
{
    match Uuid::parse_str(text) {
        Ok(u) => Some(u.as_u128()),
        Err(_) => None,
    }
}

/// A fresh random id from `uuid::Uuid::new_v4`. The value depends on chance:
/// the contract states only the version and variant bits that the source sets.
#[verifier::external_body]
pub fn new_v4_id() -> (id: u128)
    ensures
        v4_fixed_bits(id),
{
    Uuid::new_v4().as_u128()
}

/// Bits that a time-ordered (version 7, RFC 4122 variant) UUID has fixed.
pub open spec fn v7_fixed_bits(id: u128) -> bool {
    id & 0x0000_0000_0000_f000_c000_0000_0000_0000u128
        == 0x0000_0000_0000_7000_8000_0000_0000_0000u128
}

/// A fresh time-ordered id from `uuid::Uuid::now_v7`. The value depends on the
/// time and on chance: the contract states only the version and variant bits
/// that the source (`encode_unix_timestamp_millis`) sets.
#[verifier::external_body]
pub fn new_v7_id() -> (id: u128)
    ensures
        v7_fixed_bits(id),
{
    Uuid::now_v7().as_u128()
}

} // verus!
