//! The identity schemes: how the path parameter that addresses a resource
//! becomes the key bound into a statement.
//!
//! Under the integer scheme the parameter is a signed decimal number that
//! fits 32 bits. Under the generated scheme it is an opaque string that is
//! bound as it came.

use vstd::prelude::*;
use vstd::string::*;
use crate::digits::{
    all_digits, decimal_value, decimal_value_grows, decimal_value_is_natural, digit_value,
    is_digit,
};

verus! {

/// Whether `segment` starts with a sign.
pub open spec fn has_sign(segment: Seq<char>) -> bool {
    segment.len() > 0 && (segment[0] == '-' || segment[0] == '+')
}

/// The part of `segment` behind its sign, if it has one.
pub open spec fn unsigned_part(segment: Seq<char>) -> Seq<char> {
    if has_sign(segment) {
        segment.skip(1)
    } else {
        segment
    }
}

/// The number that `segment` writes: an optional `+` or `-`, then one or
/// more decimal digits and nothing else.
pub open spec fn signed_decimal(segment: Seq<char>) -> Option<int> {
    let digits = unsigned_part(segment);
    if digits.len() > 0 && all_digits(digits) {
        if segment[0] == '-' {
            Some(-decimal_value(digits))
        } else {
            Some(decimal_value(digits))
        }
    } else {
        None
    }
}

/// The integer key that the path parameter `segment` addresses, if it
/// writes a number that fits 32 bits.
pub open spec fn integer_key(segment: Seq<char>) -> Option<i32> {
    match signed_decimal(segment) {
        Some(number) => if i32::MIN <= number <= i32::MAX {
            Some(number as i32)
        } else {
            None
        },
        None => None,
    }
}

/// Parses the path parameter of the integer scheme.
///
/// The parameter is a key when it is an optional sign followed by decimal
/// digits, at least one, whose number lies between `i32::MIN` and
/// `i32::MAX`. Leading zeros are allowed. Anything else, the empty
/// string included, is no key.
pub fn parse_integer_key(segment: &str) -> (key: Option<i32>)
    ensures
        key == integer_key(segment@),
{
    if !segment.is_ascii() {
        proof {
            // Some character lies beyond ASCII: it is neither a sign nor a
            // digit.
            let at = choose|i: int|
                0 <= i < segment@.len() && !('\0' <= #[trigger] segment@[i] && segment@[i]
                    <= '\u{7f}');
            if has_sign(segment@) {
                assert(!is_digit(unsigned_part(segment@)[at - 1]));
            }
        }
        return None;
    }
    let bytes = segment.as_bytes();
    proof {
        is_ascii_spec_bytes(segment);
    }
    let length: usize = bytes.len();
    let signed: bool = length > 0 && (bytes[0] == 45u8 || bytes[0] == 43u8);
    let negative: bool = signed && bytes[0] == 45u8;
    let start: usize = if signed {
        1
    } else {
        0
    };
    let ghost digits = unsigned_part(segment@);
    if start == length {
        return None;
    }
    let mut number: i64 = 0;
    let mut at: usize = start;
    while at < length
        invariant
            start <= at <= length,
            length == bytes@.len(),
            length == segment@.len(),
            digits == unsigned_part(segment@),
            digits.len() == length - start,
            forall|i: int| 0 <= i < digits.len() ==> digits[i] == segment@[start + i],
            forall|i: int| 0 <= i < length ==> bytes@[i] == segment@[i] as u8,
            forall|i: int| 0 <= i < length ==> '\0' <= #[trigger] segment@[i] <= '\u{7f}',
            all_digits(digits.take(at - start)),
            number == decimal_value(digits.take(at - start)),
            0 <= number <= 2147483648,
        decreases length - at,
    {
        let byte: u8 = bytes[at];
        let ghost c = segment@[at as int];
        assert(digits[at - start] == c);
        if byte < 48u8 || byte > 57u8 {
            return None;
        }
        let ghost longer = digits.take(at - start + 1);
        assert(longer.drop_last() =~= digits.take(at - start));
        assert(all_digits(longer)) by {
            assert forall|i: int| 0 <= i < longer.len() implies is_digit(#[trigger] longer[i]) by {
                if i < at - start {
                    assert(longer[i] == digits.take(at - start)[i]);
                }
            }
        }
        number = number * 10 + (byte - 48u8) as i64;
        if number > 2147483648 {
            proof {
                if all_digits(digits) {
                    decimal_value_grows(digits, at - start + 1);
                }
            }
            return None;
        }
        at += 1;
    }
    assert(digits.take(at - start) =~= digits);
    if negative {
        Some((-number) as i32)
    } else if number <= 2147483647 {
        Some(number as i32)
    } else {
        None
    }
}

/// Takes the path parameter of the generated scheme as the key: any
/// string, unchanged.
pub fn opaque_key(segment: &str) -> (key: String)
    ensures
        key@ == segment@,
{
    String::from_str(segment)
}

} // verus!
