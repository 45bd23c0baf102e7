//! Reading a location id out of a path segment.
//!
//! An id is written the way Rust writes an `i32` in decimal: an optional
//! `+` or `-`, then one or more of the digits `0` to `9`, and nothing else.
//! Leading zeros are fine; blanks, underscores and an empty segment are not.

use vstd::prelude::*;
use vstd::std_specs::iter::IteratorSpec;

verus! {

/// Whether `c` is one of the ten decimal digits.
pub open spec fn is_digit(c: char) -> bool {
    48 <= c as u32 <= 57
}

/// The number that the digit `c` stands for.
pub open spec fn digit_value(c: char) -> int {
    c as u32 as int - 48
}

/// Whether every character of `s` is a decimal digit.
pub open spec fn all_digits(s: Seq<char>) -> bool {
    forall|i: int| 0 <= i < s.len() ==> is_digit(#[trigger] s[i])
}

/// The number that a run of digits stands for, read in base ten; 0 for the
/// empty run.
pub open spec fn digits_value(digits: Seq<char>) -> int
    decreases digits.len(),
{
    if digits.len() == 0 {
        0
    } else {
        10 * digits_value(digits.drop_last()) + digit_value(digits.last())
    }
}

/// Whether `s` opens with a `+` or a `-`.
pub open spec fn has_sign(s: Seq<char>) -> bool {
    s.len() > 0 && (s[0] == '-' || s[0] == '+')
}

/// What is left of `s` once a leading sign is taken off.
pub open spec fn unsigned_part(s: Seq<char>) -> Seq<char> {
    if has_sign(s) {
        s.skip(1)
    } else {
        s
    }
}

/// The integer that `s` writes in decimal, of any size, or `None` where `s`
/// is not an optional sign followed by at least one digit and digits only.
pub open spec fn signed_decimal(s: Seq<char>) -> Option<int> {
    let digits = unsigned_part(s);
    if digits.len() == 0 || !all_digits(digits) {
        None
    } else if s[0] == '-' {
        Some(-digits_value(digits))
    } else {
        Some(digits_value(digits))
    }
}

/// The location id that a path segment names: the integer it writes in
/// decimal, provided that it fits in 32 bits with a sign.
pub open spec fn location_id_of(segment: Seq<char>) -> Option<i32> {
    match signed_decimal(segment) {
        Some(v) => if i32::MIN <= v <= i32::MAX {
            Some(v as i32)
        } else {
            None
        },
        None => None,
    }
}

/// A run of digits never stands for a negative number.
pub proof fn lemma_digits_value_nonnegative(digits: Seq<char>)
    requires
        all_digits(digits),
    ensures
        digits_value(digits) >= 0,
    decreases digits.len(),
{
    if digits.len() > 0 {
        lemma_digits_value_nonnegative(digits.drop_last());
    }
}

/// Reading more digits never gives a smaller number: the first `k` digits of a
/// run stand for at most what the whole run stands for.
pub proof fn lemma_digits_value_prefix(digits: Seq<char>, k: int)
    requires
        all_digits(digits),
        0 <= k <= digits.len(),
    ensures
        digits_value(digits.take(k)) <= digits_value(digits),
    decreases digits.len(),
{
    if k == digits.len() {
        assert(digits.take(k) =~= digits);
    } else {
        let shorter = digits.drop_last();
        assert(shorter.take(k) =~= digits.take(k));
        lemma_digits_value_prefix(shorter, k);
        lemma_digits_value_nonnegative(shorter);
    }
}

/// Appending one digit multiplies by ten and adds the digit.
proof fn lemma_digits_value_step(digits: Seq<char>, k: int)
    requires
        0 <= k < digits.len(),
    ensures
        digits_value(digits.take(k + 1)) == 10 * digits_value(digits.take(k)) + digit_value(
            digits[k],
        ),
{
    let longer = digits.take(k + 1);
    assert(longer.drop_last() =~= digits.take(k));
    assert(longer.last() == digits[k]);
}

/// Reads the location id that `segment` names.
///
/// Gives the id exactly where the segment is an optional sign and then
/// digits, and the number fits in an `i32`; `None` for every other segment.
pub fn parse_location_id(segment: &str) -> (id: Option<i32>)
    ensures
        id == location_id_of(segment@),
{
    let mut rest = segment.chars();
    let ghost digits = unsigned_part(segment@);
    let mut negative = false;
    let mut magnitude: i64 = 0;
    let mut any_digit = false;
    let ghost mut read: int = 0;

    // The first character is a sign, the first digit, or the end of it.
    match rest.next() {
        None => {
            return None;
        },
        Some(c) => {
            let code = c as u32;
            if c == '-' {
                negative = true;
            } else if c == '+' {
            } else if 48 <= code && code <= 57 {
                magnitude = (code - 48) as i64;
                any_digit = true;
                proof {
                    read = 1;
                    lemma_digits_value_step(digits, 0);
                    assert(digits.take(0) =~= Seq::<char>::empty());
                }
            } else {
                assert(!is_digit(digits[0]));
                return None;
            }
        },
    }

    // The largest magnitude that still fits: one more below zero than above.
    let limit: i64 = if negative {
        2147483648
    } else {
        2147483647
    };
    assert(digits.skip(read) =~= rest.remaining());

    loop
        invariant
            digits == unsigned_part(segment@),
            negative == (segment@.len() > 0 && segment@[0] == '-'),
            limit == if negative { 2147483648i64 } else { 2147483647i64 },
            0 <= read <= digits.len(),
            any_digit == (read > 0),
            rest.remaining() == digits.skip(read),
            all_digits(digits.take(read)),
            magnitude == digits_value(digits.take(read)),
            0 <= magnitude <= limit,
        ensures
            read == digits.len(),
        decreases digits.len() - read,
    {
        match rest.next() {
            None => {
                break;
            },
            Some(c) => {
                let code = c as u32;
                assert(c == digits[read]);
                if !(48 <= code && code <= 57) {
                    assert(!is_digit(digits[read]));
                    return None;
                }
                let next: i64 = magnitude * 10 + (code - 48) as i64;
                proof {
                    lemma_digits_value_step(digits, read);
                    assert(digits.skip(read).drop_first() =~= digits.skip(read + 1));
                    assert forall|i: int| 0 <= i < read + 1 implies is_digit(
                        #[trigger] digits.take(read + 1)[i],
                    ) by {
                        if i < read {
                            assert(digits.take(read)[i] == digits[i]);
                        }
                    }
                    read = read + 1;
                }
                if next > limit {
                    // Whatever follows, the number can only grow.
                    proof {
                        if all_digits(digits) {
                            lemma_digits_value_prefix(digits, read);
                        }
                    }
                    return None;
                }
                magnitude = next;
                any_digit = true;
            },
        }
    }

    assert(digits.take(read) =~= digits);
    if !any_digit {
        return None;
    }
    let value: i64 = if negative {
        -magnitude
    } else {
        magnitude
    };
    Some(value as i32)
}

} // verus!
