//! Fresh record ids: ULIDs, written in Crockford's base 32.

use vstd::arithmetic::power2::pow2;
use vstd::prelude::*;

verus! {

/// The 32 digits of Crockford's base 32, in order of value.
pub open spec fn crockford_digits() -> Seq<char> {
    seq![
        '0', '1', '2', '3', '4', '5', '6', '7', '8', '9', 'A', 'B', 'C', 'D', 'E', 'F',
        'G', 'H', 'J', 'K', 'M', 'N', 'P', 'Q', 'R', 'S', 'T', 'V', 'W', 'X', 'Y', 'Z',
    ]
}

/// The text of the ULID with value `value`: 26 base-32 digits, most
/// significant first.
pub open spec fn ulid_text(value: u128) -> Seq<char> {
    Seq::new(26, |i: int| crockford_digits()[(value as int / pow2((5 * (25 - i)) as nat) as int) % 32])
}

/// `ulid::Ulid::new()`, taken by its 128-bit value. The value rests on the
/// clock and on a random source, so nothing is stated of it.
#[verifier::external_body]
pub(crate) fn fresh_ulid() -> (r: u128) {
    ulid::Ulid::new().0
}

/// `ulid::Ulid(value).to_string()`: the crate's `base32::encode` writes the
/// 26 digits of `value` in base 32, five bits each, least significant last,
/// with the alphabet `0123456789ABCDEFGHJKMNPQRSTVWXYZ`.
#[verifier::external_body]
fn ulid_string(value: u128) -> (r: String)
    ensures
        r@ == ulid_text(value),
{
    ulid::Ulid(value).to_string()
}

/// `prefix` followed by the text of the ULID `value`.
pub fn prefixed_ulid(prefix: &str, value: u128) -> (r: String)
    ensures
        r@ == prefix@ + ulid_text(value),
{
    String::from_str(prefix).concat(ulid_string(value).as_str())
}

} // verus!
