//! Identifiers of accounts and orders.

use vstd::prelude::*;

verus! {

/// The 128-bit identifier that the exchange gives an order.
pub type OrderId = u128;

/// The 128-bit identifier of an account.
pub type AccountId = u128;

/// The character that stands for the hexadecimal digit `d`, in lower case.
pub open spec fn hex_digit(d: int) -> char
    recommends
        0 <= d < 16,
{
    if d < 10 {
        (('0' as int) + d) as char
    } else {
        (('a' as int) + d - 10) as char
    }
}

/// The hexadecimal numeral of `n` in exactly `width` lower-case digits, the
/// most significant first; what does not fit in `width` digits is left out.
pub open spec fn hex_numeral(n: nat, width: nat) -> Seq<char>
    decreases width,
{
    if width == 0 {
        Seq::empty()
    } else {
        hex_numeral(n / 16, (width - 1) as nat).push(hex_digit((n % 16) as int))
    }
}

/// A 128-bit identifier in the hyphenated form of a UUID: its 32 lower-case
/// hexadecimal digits, the most significant first, in groups of 8, 4, 4, 4
/// and 12 with a hyphen between each two groups.
pub open spec fn uuid_text(id: u128) -> Seq<char> {
    let digits = hex_numeral(id as nat, 32);
    digits.subrange(0, 8) + seq!['-'] + digits.subrange(8, 12) + seq!['-'] + digits.subrange(
        12,
        16,
    ) + seq!['-'] + digits.subrange(16, 20) + seq!['-'] + digits.subrange(20, 32)
}

/// Trusted: the `Display` form of `uuid::Uuid::from_u128(id)`. The number's
/// sixteen bytes are taken from the most significant down, each is written
/// as two lower-case hexadecimal digits, and hyphens are set after the
/// eighth, twelfth, sixteenth and twentieth digit.
#[verifier::external_body]
pub(crate) fn format_uuid(id: u128) -> (text: String)
    ensures
        text@ == uuid_text(id),
{
    format!("{}", uuid::Uuid::from_u128(id))
}

} // verus!
