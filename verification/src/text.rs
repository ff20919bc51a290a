//! Comparison of strings, and the reading of hexadecimal numbers.

use vstd::prelude::*;
use vstd::utf8::encode_utf8_decode_utf8;

verus! {

/// Whether two byte strings are the same.
pub fn bytes_eq(a: &[u8], b: &[u8]) -> (equal: bool)
    ensures
        equal == (a@ == b@),
{
    if a.len() != b.len() {
        return false;
    }
    let mut i: usize = 0;
    while i < a.len()
        invariant
            i <= a@.len(),
            a@.len() == b@.len(),
            a@.subrange(0, i as int) == b@.subrange(0, i as int),
        decreases a@.len() - i,
    {
        if a[i] != b[i] {
            return false;
        }
        i += 1;
        assert(a@.subrange(0, i as int) =~= a@.subrange(0, i - 1).push(a@[i - 1]));
        assert(b@.subrange(0, i as int) =~= b@.subrange(0, i - 1).push(b@[i - 1]));
    }
    assert(a@ =~= a@.subrange(0, i as int));
    assert(b@ =~= b@.subrange(0, i as int));
    true
}

/// Whether two strings are the same.
pub fn str_eq(a: &str, b: &str) -> (equal: bool)
    ensures
        equal == (a@ == b@),
{
    proof {
        encode_utf8_decode_utf8(a@);
        encode_utf8_decode_utf8(b@);
    }
    bytes_eq(a.as_bytes(), b.as_bytes())
}

/// The value of the hexadecimal digit `byte`, if it is one.
pub open spec fn hex_digit(byte: u8) -> Option<int> {
    if 0x30 <= byte <= 0x39 {
        Some(byte - 0x30)
    } else if 0x61 <= byte <= 0x66 {
        Some(byte - 0x61 + 10)
    } else if 0x41 <= byte <= 0x46 {
        Some(byte - 0x41 + 10)
    } else {
        None
    }
}

/// Whether every byte of `digits` is a hexadecimal digit.
pub open spec fn all_hex_digits(digits: Seq<u8>) -> bool {
    forall|i: int| 0 <= i < digits.len() ==> hex_digit(#[trigger] digits[i]) is Some
}

/// The number that the hexadecimal digits `digits` spell, the most
/// significant first.
pub open spec fn hex_digits_value(digits: Seq<u8>) -> int
    recommends
        all_hex_digits(digits),
    decreases digits.len(),
{
    if digits.len() == 0 {
        0
    } else {
        hex_digits_value(digits.drop_last()) * 16 + hex_digit(digits.last()).unwrap()
    }
}

/// `text` without the prefix `0x`, if it has that prefix.
pub open spec fn without_hex_prefix(text: Seq<u8>) -> Seq<u8> {
    if text.len() >= 2 && text[0] == 0x30 && text[1] == 0x78 {
        text.skip(2)
    } else {
        text
    }
}

/// `text` without a plus sign in front, if it has one.
pub open spec fn without_plus_sign(text: Seq<u8>) -> Seq<u8> {
    if text.len() >= 1 && text[0] == 0x2b {
        text.skip(1)
    } else {
        text
    }
}

/// The number that `text` spells in hexadecimal: an optional prefix `0x`,
/// an optional plus sign, and at least one hexadecimal digit. There is
/// none where `text` is not of that form, or spells a number above
/// `usize::MAX`.
pub open spec fn hex_value(text: Seq<u8>) -> Option<usize> {
    let digits = without_plus_sign(without_hex_prefix(text));
    if digits.len() > 0 && all_hex_digits(digits) && hex_digits_value(digits) <= usize::MAX {
        Some(hex_digits_value(digits) as usize)
    } else {
        None
    }
}

/// A number grows with every digit that is added behind it.
pub proof fn lemma_hex_value_grows(digits: Seq<u8>, shorter: int)
    requires
        all_hex_digits(digits),
        0 <= shorter <= digits.len(),
    ensures
        0 <= hex_digits_value(digits.subrange(0, shorter)) <= hex_digits_value(digits),
    decreases digits.len() - shorter,
{
    if shorter == digits.len() {
        assert(digits.subrange(0, shorter) =~= digits);
        lemma_hex_value_not_negative(digits);
    } else {
        lemma_hex_value_grows(digits, shorter + 1);
        let longer = digits.subrange(0, shorter + 1);
        assert(longer.drop_last() =~= digits.subrange(0, shorter));
        assert(hex_digit(longer.last()) is Some);
        lemma_hex_value_not_negative(digits.subrange(0, shorter));
    }
}

/// The number that digits spell is not negative.
pub proof fn lemma_hex_value_not_negative(digits: Seq<u8>)
    requires
        all_hex_digits(digits),
    ensures
        0 <= hex_digits_value(digits),
    decreases digits.len(),
{
    if digits.len() > 0 {
        lemma_hex_value_not_negative(digits.drop_last());
        assert(hex_digit(digits.last()) is Some);
    }
}

/// The number that `text` spells in hexadecimal, as `hex_value` reads it.
pub fn parse_hex(text: &[u8]) -> (value: Option<usize>)
    ensures
        value == hex_value(text@),
{
    let mut start: usize = 0;
    if text.len() >= 2 && text[0] == 0x30 && text[1] == 0x78 {
        start = 2;
    }
    if text.len() > start && text[start] == 0x2b {
        start += 1;
    }
    let ghost digits = without_plus_sign(without_hex_prefix(text@));
    assert(digits =~= text@.subrange(start as int, text@.len() as int));
    if start == text.len() {
        return None;
    }
    let mut value: usize = 0;
    let mut i: usize = start;
    while i < text.len()
        invariant
            start <= i <= text@.len(),
            digits == without_plus_sign(without_hex_prefix(text@)),
            digits == text@.subrange(start as int, text@.len() as int),
            all_hex_digits(digits.subrange(0, i - start)),
            value == hex_digits_value(digits.subrange(0, i - start)),
        decreases text@.len() - i,
    {
        let byte: u8 = text[i];
        let digit: usize = if 0x30 <= byte && byte <= 0x39 {
            (byte - 0x30) as usize
        } else if 0x61 <= byte && byte <= 0x66 {
            (byte - 0x61 + 10) as usize
        } else if 0x41 <= byte && byte <= 0x46 {
            (byte - 0x41 + 10) as usize
        } else {
            assert(digits[i - start] == byte);
            assert(hex_digit(digits[i - start]) is None);
            return None;
        };
        let ghost longer = digits.subrange(0, i - start + 1);
        assert(longer.drop_last() =~= digits.subrange(0, i - start));
        assert(longer.last() == byte);
        assert(all_hex_digits(longer)) by {
            assert forall|j: int| 0 <= j < longer.len() implies hex_digit(
                #[trigger] longer[j],
            ) is Some by {
                if j < longer.len() - 1 {
                    assert(longer[j] == digits.subrange(0, i - start)[j]);
                }
            }
        }
        if value > (usize::MAX - digit) / 16 {
            proof {
                assert(hex_digits_value(longer) > usize::MAX);
                if all_hex_digits(digits) {
                    lemma_hex_value_grows(digits, i - start + 1);
                }
            }
            return None;
        }
        value = value * 16 + digit;
        i += 1;
    }
    assert(digits.subrange(0, i - start) =~= digits);
    Some(value)
}

} // verus!
