//! Decimal numbers as they stand in header values: an optional sign, then
//! one or more digits.

use crate::text::to_chars;
use vstd::prelude::*;

verus! {

/// One of `0` to `9`.
pub open spec fn is_digit(c: char) -> bool {
    '0' <= c <= '9'
}

/// The number that a digit writes.
pub open spec fn digit_value(c: char) -> nat {
    (c as int - '0' as int) as nat
}

/// One or more digits, and nothing else.
pub open spec fn is_decimal(text: Seq<char>) -> bool {
    text.len() > 0 && forall|i: int| 0 <= i < text.len() ==> is_digit(#[trigger] text[i])
}

/// The number that the digits of `text` write.
pub open spec fn decimal_value(text: Seq<char>) -> nat
    decreases text.len(),
{
    if text.len() == 0 {
        0
    } else {
        decimal_value(text.drop_last()) * 10 + digit_value(text.last())
    }
}

/// The number that `text` writes, where it is digits with at most a `+`
/// before them.
pub open spec fn unsigned_value(text: Seq<char>) -> Option<nat> {
    let digits = if text.len() > 0 && text[0] == '+' {
        text.drop_first()
    } else {
        text
    };
    if is_decimal(digits) {
        Some(decimal_value(digits))
    } else {
        None
    }
}

/// The number that `text` writes, where it is digits with at most a `+` or
/// a `-` before them.
pub open spec fn signed_value(text: Seq<char>) -> Option<int> {
    if text.len() > 0 && text[0] == '-' {
        if is_decimal(text.drop_first()) {
            Some(-(decimal_value(text.drop_first()) as int))
        } else {
            None
        }
    } else {
        match unsigned_value(text) {
            Some(value) => Some(value as int),
            None => None,
        }
    }
}

/// The number that `text` writes, where it is a signed decimal that an
/// `i32` can hold.
pub open spec fn i32_value(text: Seq<char>) -> Option<i32> {
    match signed_value(text) {
        Some(value) => if i32::MIN <= value <= i32::MAX {
            Some(value as i32)
        } else {
            None
        },
        None => None,
    }
}

/// `value`, or `cap` where `value` is larger.
pub open spec fn capped(value: nat, cap: nat) -> nat {
    if value <= cap {
        value
    } else {
        cap
    }
}

/// Reads `text[from..]` as digits. `None` where it is not a decimal; else
/// its value, or `cap` where the value is larger.
pub fn capped_decimal(text: &Vec<char>, from: usize, cap: u64) -> (value: Option<u64>)
    requires
        from <= text.len(),
        cap <= 0xFFFF_FFFF_FFFF,
    ensures
        value is Some <==> is_decimal(text@.skip(from as int)),
        value matches Some(v) ==> v == capped(decimal_value(text@.skip(from as int)), cap as nat),
{
    if from == text.len() {
        return None;
    }
    let mut seen: u64 = 0;
    let mut i: usize = from;
    while i < text.len()
        invariant
            from <= i <= text.len(),
            cap <= 0xFFFF_FFFF_FFFF,
            forall|k: int| from <= k < i ==> is_digit(#[trigger] text[k]),
            seen == capped(decimal_value(text@.subrange(from as int, i as int)), cap as nat),
        decreases text.len() - i,
    {
        let c = text[i];
        if c < '0' || c > '9' {
            assert(!is_digit(text@.skip(from as int)[i - from]));
            return None;
        }
        assert(text@.subrange(from as int, i + 1).drop_last() =~= text@.subrange(
            from as int,
            i as int,
        ));
        let digit: u64 = (c as u32 - '0' as u32) as u64;
        let next: u64 = seen * 10 + digit;
        seen = if next > cap {
            cap
        } else {
            next
        };
        i += 1;
    }
    assert(text@.subrange(from as int, text.len() as int) =~= text@.skip(from as int));
    Some(seen)
}

/// Whether `text` writes an unsigned decimal that is larger than `limit`.
pub fn exceeds(text: &str, limit: u32) -> (over: bool)
    ensures
        over == (unsigned_value(text@) matches Some(value) && value > limit),
{
    let chars = to_chars(text);
    let from: usize = if chars.len() > 0 && chars[0] == '+' {
        1
    } else {
        0
    };
    assert(chars@.skip(0) =~= chars@);
    match capped_decimal(&chars, from, limit as u64 + 1) {
        Some(value) => value > limit as u64,
        None => false,
    }
}

/// Reads `text` as an `i32`: an optional sign and digits, within range.
pub fn parse_i32(text: &str) -> (value: Option<i32>)
    ensures
        value == i32_value(text@),
{
    let chars = to_chars(text);
    let negative = chars.len() > 0 && chars[0] == '-';
    let from: usize = if chars.len() > 0 && (chars[0] == '+' || chars[0] == '-') {
        1
    } else {
        0
    };
    assert(chars@.skip(0) =~= chars@);
    match capped_decimal(&chars, from, 0x8000_0001) {
        None => None,
        Some(size) => {
            if negative {
                if size <= 0x8000_0000 {
                    Some((0 - size as i64) as i32)
                } else {
                    None
                }
            } else if size <= 0x7FFF_FFFF {
                Some(size as i32)
            } else {
                None
            }
        },
    }
}

} // verus!
