//! UUIDs, held as their 128-bit value, and their text forms (through the `uuid` crate).
use vstd::prelude::*;
use vstd::arithmetic::power::pow;

use crate::text::digit_char;

verus! {

/// What `uuid::Uuid::parse_str` makes of a text: the UUID's value, or nothing
/// when the text is not a UUID.
pub uninterp spec fn parsed_uuid(text: Seq<char>) -> Option<u128>;

/// The lowercase hexadecimal digit for `d` (0 to 15).
pub open spec fn hex_char(d: nat) -> char {
    if d < 10 {
        digit_char(d)
    } else if d == 10 {
        'a'
    } else if d == 11 {
        'b'
    } else if d == 12 {
        'c'
    } else if d == 13 {
        'd'
    } else if d == 14 {
        'e'
    } else {
        'f'
    }
}

/// The `k`-th hexadecimal digit of `u`, counting from the most significant (0 to 31).
pub open spec fn nibble(u: u128, k: int) -> nat {
    ((u as nat / pow(16, (31 - k) as nat) as nat) % 16) as nat
}

/// How many of the 32 digits come before text position `i` of the hyphenated form.
pub open spec fn digits_before(i: int) -> int {
    if i < 8 {
        i
    } else if i < 13 {
        i - 1
    } else if i < 18 {
        i - 2
    } else if i < 23 {
        i - 3
    } else {
        i - 4
    }
}

/// The hyphenated lowercase form of a UUID: 32 hex digits grouped 8-4-4-4-12.
pub open spec fn hyphenated_text(u: u128) -> Seq<char> {
    Seq::new(
        36,
        |i: int|
            if i == 8 || i == 13 || i == 18 || i == 23 {
                '-'
            } else {
                hex_char(nibble(u, digits_before(i)))
            },
    )
}

/// Parses a UUID with `uuid::Uuid::parse_str`; the result is named by
/// [`parsed_uuid`]. Nothing more is claimed of which texts it accepts.
#[verifier::external_body]
pub(crate) fn parse_uuid(s: &str) -> (r: Option<u128>)
    ensures
        r == parsed_uuid(s@),
{
    match uuid::Uuid::parse_str(s) {
        Ok(u) => Some(u.as_u128()),
        Err(_) => None,
    }
}

/// Renders a UUID with `uuid::Uuid::hyphenated` (its `Display` form): the claim is
/// that this is the 8-4-4-4-12 lowercase hexadecimal form, and that
/// `uuid::Uuid::parse_str` reads it back as the same UUID.
#[verifier::external_body]
pub(crate) fn uuid_to_string(u: u128) -> (s: String)
    ensures
        s@ == hyphenated_text(u),
        parsed_uuid(s@) == Some(u),
{
    uuid::Uuid::from_u128(u).hyphenated().to_string()
}

/// The 128-bit UUID built from a small integer, as `Uuid::from_u128` does.
pub fn mkuuid(val: u32) -> (r: u128)
    ensures
        r == val as u128,
{
    val as u128
}

} // verus!
