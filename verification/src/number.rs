//! Reading an unsigned 32-bit number written in decimal.

use vstd::prelude::*;
use vstd::utf8::is_ascii_chars;

verus! {

/// The ASCII code of the plus sign.
const PLUS: u8 = 0x2b;

/// The ASCII code of the digit zero.
const ZERO: u8 = 0x30;

/// The ASCII code of the digit nine.
const NINE: u8 = 0x39;

/// Whether `c` is one of the ten decimal digits.
pub open spec fn is_digit(c: char) -> bool {
    '0' <= c <= '9'
}

/// What a decimal digit counts for; zero for any other character.
pub open spec fn digit_value(c: char) -> nat {
    if is_digit(c) {
        (c as u32 - '0' as u32) as nat
    } else {
        0
    }
}

/// Whether `s` holds decimal digits only.
pub open spec fn all_digits(s: Seq<char>) -> bool {
    forall|i: int| 0 <= i < s.len() ==> is_digit(#[trigger] s[i])
}

/// The number that the digits of `s` write in base ten, the first digit
/// counting most.
pub open spec fn decimal_value(s: Seq<char>) -> nat
    decreases s.len(),
{
    if s.len() == 0 {
        0
    } else {
        10 * decimal_value(s.drop_last()) + digit_value(s.last())
    }
}

/// `s` without a plus sign at its start.
pub open spec fn unsigned_part(s: Seq<char>) -> Seq<char> {
    if s.len() > 0 && s.first() == '+' {
        s.drop_first()
    } else {
        s
    }
}

/// The number that `s` writes: an optional plus sign, then at least one
/// decimal digit and nothing else, the whole no larger than `u32::MAX`.
/// Any other text writes no number.
pub open spec fn parsed_u32(s: Seq<char>) -> Option<u32> {
    let digits = unsigned_part(s);
    if digits.len() > 0 && all_digits(digits) && decimal_value(digits) <= u32::MAX {
        Some(decimal_value(digits) as u32)
    } else {
        None
    }
}

/// A number is at least what any of its leading digits write.
proof fn lemma_decimal_value_grows(s: Seq<char>, k: int)
    requires
        0 <= k <= s.len(),
    ensures
        decimal_value(s.take(k)) <= decimal_value(s),
    decreases s.len(),
{
    if k < s.len() {
        assert(s.drop_last().take(k) == s.take(k));
        lemma_decimal_value_grows(s.drop_last(), k);
    } else {
        assert(s.take(k) == s);
    }
}

/// Text with a character beyond ASCII in it writes no number.
proof fn lemma_beyond_ascii_is_no_number(s: Seq<char>)
    requires
        !is_ascii_chars(s),
    ensures
        parsed_u32(s) is None,
{
    let at = choose|i: int| 0 <= i < s.len() && !('\0' <= #[trigger] s[i] <= '\u{7f}');
    let digits = unsigned_part(s);
    if digits.len() < s.len() {
        assert(!is_digit(digits[at - 1]));
    }
}

/// Reads `text` as an unsigned 32-bit number in decimal.
pub fn parse_u32(text: &str) -> (number: Option<u32>)
    ensures
        number == parsed_u32(text@),
{
    if !text.is_ascii() {
        proof {
            lemma_beyond_ascii_is_no_number(text@);
        }
        return None;
    }
    let len = text.unicode_len();
    if len == 0 {
        return None;
    }
    let first: usize = if text.get_ascii(0) == PLUS {
        1
    } else {
        0
    };
    if first == len {
        return None;
    }
    let ghost digits = unsigned_part(text@);
    let mut value: u32 = 0;
    let mut at: usize = first;
    while at < len
        invariant
            text.is_ascii(),
            first <= at <= len == text@.len(),
            digits == unsigned_part(text@),
            digits == text@.subrange(first as int, len as int),
            all_digits(digits.take(at - first)),
            value == decimal_value(digits.take(at - first)),
        decreases len - at,
    {
        let byte = text.get_ascii(at);
        let ghost seen = digits.take(at - first + 1);
        assert(seen.drop_last() == digits.take(at - first));
        if !(ZERO <= byte && byte <= NINE) {
            assert(!is_digit(digits[at - first]));
            return None;
        }
        let digit: u32 = (byte - ZERO) as u32;
        let next = match value.checked_mul(10) {
            Some(tens) => tens.checked_add(digit),
            None => None,
        };
        match next {
            Some(sum) => {
                value = sum;
            },
            None => {
                proof {
                    lemma_decimal_value_grows(digits, at - first + 1);
                }
                return None;
            },
        }
        at += 1;
    }
    assert(digits.take(at - first) == digits);
    Some(value)
}

} // verus!
