//! Decimal notation of integers, as the display shows them.

use vstd::prelude::*;

verus! {

/// The character of one decimal digit.
pub open spec fn digit(value: int) -> char {
    ('0' as int + value) as char
}

/// The digits of `value`, most significant first, without leading zeros.
pub open spec fn digits(value: nat) -> Seq<char>
    decreases value,
{
    if value < 10 {
        seq![digit(value as int)]
    } else {
        digits(value / 10).push(digit((value % 10) as int))
    }
}

/// Decimal notation: a minus sign for a negative number, then the digits
/// of its magnitude.
pub open spec fn decimal(value: int) -> Seq<char> {
    if value < 0 {
        seq!['-'] + digits((-value) as nat)
    } else {
        digits(value as nat)
    }
}

/// Calls `numtoa::NumToA::numtoa_str` with base 10 on a scratch buffer of 16
/// bytes, more than the six a 16-bit number can need, and copies the text out.
/// Trusted: the text is the number in decimal notation, with a leading minus
/// sign for a negative number and no leading zeros.
#[verifier::external_body]
pub(crate) fn decimal_text(value: i16) -> (text: String)
    ensures
        text@ == decimal(value as int),
{
    let mut buffer = [0u8; 16];
    String::from(numtoa::NumToA::numtoa_str(value, 10, &mut buffer))
}

/// A number below ten thousand in magnitude takes at most four digits, and
/// a sign if it is negative.
pub proof fn lemma_decimal_length(value: int)
    requires
        -10000 < value < 10000,
    ensures
        1 <= digits(vstd::math::abs(value) as nat).len() <= 4,
        decimal(value).len() == digits(vstd::math::abs(value) as nat).len() + (if value < 0 {
            1int
        } else {
            0int
        }),
{
    reveal_with_fuel(digits, 4);
}

} // verus!
