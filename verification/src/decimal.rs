//! Unsigned decimal numbers as text: an optional `+`, then one or more
//! ASCII digits, and nothing else. Leading zeros are allowed; spaces, a
//! minus sign and an empty text are not.

use vstd::prelude::*;

verus! {

/// Whether `byte` is one of the ASCII digits `0` to `9`.
pub open spec fn is_digit(byte: u8) -> bool {
    0x30 <= byte <= 0x39
}

/// Whether every byte is an ASCII digit.
pub open spec fn all_digits(digits: Seq<u8>) -> bool {
    forall|i: int| 0 <= i < digits.len() ==> is_digit(#[trigger] digits[i])
}

/// The number that a single digit stands for; zero for any other byte.
pub open spec fn digit_value(byte: u8) -> nat {
    if is_digit(byte) {
        (byte - 0x30) as nat
    } else {
        0
    }
}

/// The number that a run of digits spells, the most significant first.
pub open spec fn digits_value(digits: Seq<u8>) -> nat
    decreases digits.len(),
{
    if digits.len() == 0 {
        0
    } else {
        digits_value(digits.drop_last()) * 10 + digit_value(digits.last())
    }
}

/// The text without its leading `+`, if it has one.
pub open spec fn unsigned_part(text: Seq<u8>) -> Seq<u8> {
    if text.len() > 0 && text[0] == 0x2B {
        text.skip(1)
    } else {
        text
    }
}

/// Whether the text is an unsigned decimal number.
pub open spec fn is_decimal(text: Seq<u8>) -> bool {
    unsigned_part(text).len() > 0 && all_digits(unsigned_part(text))
}

/// The number that a decimal text spells.
pub open spec fn decimal_value(text: Seq<u8>) -> nat {
    digits_value(unsigned_part(text))
}

/// Whether the text is an unsigned decimal number of at most `limit`.
pub open spec fn spells_at_most(text: Seq<u8>, limit: nat) -> bool {
    is_decimal(text) && decimal_value(text) <= limit
}

/// A run of digits spells no less than any of its prefixes.
pub proof fn lemma_prefix_value(digits: Seq<u8>, n: int)
    requires
        0 <= n <= digits.len(),
    ensures
        digits_value(digits.take(n)) <= digits_value(digits),
    decreases digits.len() - n,
{
    if n == digits.len() {
        assert(digits.take(n) =~= digits);
    } else {
        assert(digits.take(n + 1).drop_last() =~= digits.take(n));
        lemma_prefix_value(digits, n + 1);
    }
}

/// Reads an unsigned decimal number that fits a `u64`.
pub fn parse_u64(text: &[u8]) -> (value: Option<u64>)
    ensures
        match value {
            Some(v) => spells_at_most(text@, u64::MAX as nat) && v == decimal_value(text@),
            None => !spells_at_most(text@, u64::MAX as nat),
        },
{
    let start: usize = if text.len() > 0 && text[0] == 0x2B {
        1
    } else {
        0
    };
    if start == text.len() {
        return None;
    }
    let ghost digits = unsigned_part(text@);
    assert(digits =~= text@.skip(start as int));
    let mut value: u64 = 0;
    let mut i: usize = start;
    while i < text.len()
        invariant
            start <= i <= text.len(),
            digits == text@.skip(start as int),
            digits == unsigned_part(text@),
            all_digits(digits.take(i - start)),
            value == digits_value(digits.take(i - start)),
        decreases text.len() - i,
    {
        let byte: u8 = text[i];
        assert(digits[i - start] == byte);
        if byte < 0x30 || byte > 0x39 {
            return None;
        }
        proof {
            assert(digits.take(i - start + 1).drop_last() =~= digits.take(i - start));
            lemma_prefix_value(digits, i - start + 1);
        }
        let digit: u64 = (byte - 0x30) as u64;
        let shifted: u64 = match value.checked_mul(10) {
            Some(shifted) => shifted,
            None => {
                return None;
            },
        };
        value = match shifted.checked_add(digit) {
            Some(next) => next,
            None => {
                return None;
            },
        };
        i += 1;
    }
    assert(digits.take(i - start) =~= digits);
    Some(value)
}

/// Reads an unsigned decimal number that fits a `usize`.
pub fn parse_usize(text: &[u8]) -> (value: Option<usize>)
    ensures
        match value {
            Some(v) => spells_at_most(text@, usize::MAX as nat) && v == decimal_value(text@),
            None => !spells_at_most(text@, usize::MAX as nat),
        },
{
    match parse_u64(text) {
        Some(v) => if v <= usize::MAX as u64 {
            Some(v as usize)
        } else {
            None
        },
        None => None,
    }
}

} // verus!
