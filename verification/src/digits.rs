//! Decimal digits and the numbers they write.

use vstd::prelude::*;

verus! {

/// Whether `c` is a decimal digit.
pub open spec fn is_digit(c: char) -> bool {
    '0' <= c && c <= '9'
}

/// The value of the digit `c`.
pub open spec fn digit_value(c: char) -> int {
    c as int - '0' as int
}

/// Whether every character of `text` is a decimal digit.
pub open spec fn all_digits(text: Seq<char>) -> bool {
    forall|i: int| 0 <= i < text.len() ==> is_digit(#[trigger] text[i])
}

/// The number that the digits write in base ten, leading zeros allowed.
/// The empty sequence writes 0.
pub open spec fn decimal_value(digits: Seq<char>) -> int
    decreases digits.len(),
{
    if digits.len() == 0 {
        0
    } else {
        decimal_value(digits.drop_last()) * 10 + digit_value(digits.last())
    }
}

/// A run of digits writes a number that is not negative.
pub proof fn decimal_value_is_natural(digits: Seq<char>)
    requires
        all_digits(digits),
    ensures
        decimal_value(digits) >= 0,
    decreases digits.len(),
{
    if digits.len() > 0 {
        decimal_value_is_natural(digits.drop_last());
    }
}

/// A run of digits writes a number at least as large as any of its
/// prefixes does.
pub proof fn decimal_value_grows(digits: Seq<char>, prefix: int)
    requires
        all_digits(digits),
        0 <= prefix <= digits.len(),
    ensures
        decimal_value(digits.take(prefix)) <= decimal_value(digits),
    decreases digits.len(),
{
    if prefix == digits.len() {
        assert(digits.take(prefix) =~= digits);
    } else {
        let shorter = digits.drop_last();
        decimal_value_grows(shorter, prefix);
        decimal_value_is_natural(shorter);
        assert(shorter.take(prefix) =~= digits.take(prefix));
    }
}

} // verus!
