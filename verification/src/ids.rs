//! Identifiers of accounts: UUIDs in their text form, and the ULIDs of the
//! earlier token format.

use vstd::prelude::*;
use vstd::arithmetic::power::pow;

verus! {

/// The value of a UUID written in one of the text forms that `uuid` reads.
pub uninterp spec fn uuid_parse(s: Seq<char>) -> Option<u128>;

/// The lower-case hexadecimal digit of a value below 16.
pub open spec fn hex_digit(d: int) -> char {
    if d < 10 {
        (48 + d) as char
    } else {
        (87 + d) as char
    }
}

/// The `i`-th of the 32 hexadecimal digits of a 128-bit value, most
/// significant first.
pub open spec fn nibble(v: u128, i: int) -> int {
    (v as int / pow(16, (31 - i) as nat)) % 16
}

/// The hyphenated lower-case text of a UUID: its 32 hexadecimal digits,
/// most significant first, in groups of 8, 4, 4, 4 and 12 joined by hyphens.
pub open spec fn uuid_text(v: u128) -> Seq<char> {
    Seq::new(
        36,
        |k: int|
            if k == 8 || k == 13 || k == 18 || k == 23 {
                '-'
            } else {
                hex_digit(
                    nibble(
                        v,
                        if k < 8 {
                            k
                        } else if k < 13 {
                            k - 1
                        } else if k < 18 {
                            k - 2
                        } else if k < 23 {
                            k - 3
                        } else {
                            k - 4
                        },
                    ),
                )
            },
    )
}

/// The value of a ULID written in Crockford base 32.
pub uninterp spec fn ulid_parse(s: Seq<char>) -> Option<u128>;

/// `uuid::Uuid::parse_str`, read as a big-endian `u128`: the value of the
/// UUID that `s` writes, or `None` where `s` is not a UUID; a function of `s`
/// alone.
#[verifier::external_body]
pub(crate) fn parse_uuid(s: &str) -> (r: Option<u128>)
    ensures
        r == uuid_parse(s@),
{
    match uuid::Uuid::parse_str(s) {
        Ok(u) => Some(u.as_u128()),
        Err(_) => None,
    }
}

/// `uuid::Uuid::from_u128(v).to_string()`: the hyphenated lower-case text
/// of the UUID (`Display` writes the `LowerHex` hyphenated form). The crate
/// documents that `parse_str` reads every
/// format that it writes, so the text reads back as `v`.
#[verifier::external_body]
pub(crate) fn uuid_to_string(v: u128) -> (r: String)
    ensures
        r@ == uuid_text(v),
        uuid_parse(r@) == Some(v),
{
    uuid::Uuid::from_u128(v).to_string()
}

/// `uuid::Uuid::new_v4`: a random UUID. Nothing is promised of its value.
#[verifier::external_body]
pub(crate) fn new_uuid() -> (v: u128) {
    uuid::Uuid::new_v4().as_u128()
}

/// `rusty_ulid::Ulid::from_str`, read as a `u128`: the value of the ULID
/// that `s` writes, or `None`; a function of `s` alone.
#[verifier::external_body]
pub(crate) fn parse_ulid(s: &str) -> (r: Option<u128>)
    ensures
        r == ulid_parse(s@),
{
    match s.parse::<rusty_ulid::Ulid>() {
        Ok(u) => Some(u128::from(u)),
        Err(_) => None,
    }
}

} // verus!
