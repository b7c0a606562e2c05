//! Decimal texts of unsigned numbers: reading them and writing them.

use crate::encoding::push_char;
use vstd::prelude::*;
use vstd::string::StringSliceAdditionalSpecFns;
use vstd::utf8::is_ascii_chars;

verus! {

/// The character is one of the ten digits.
pub open spec fn is_decimal_digit(c: char) -> bool {
    '0' <= c <= '9'
}

/// The number from 0 to 9 that a digit stands for.
pub open spec fn digit_value(c: char) -> nat {
    (c as int - '0' as int) as nat
}

/// Every character of the text is a digit.
pub open spec fn all_decimal_digits(text: Seq<char>) -> bool {
    forall|i: int| 0 <= i < text.len() ==> is_decimal_digit(#[trigger] text[i])
}

/// The number that a run of decimal digits denotes, most significant first.
pub open spec fn digits_value(digits: Seq<char>) -> nat
    decreases digits.len(),
{
    if digits.len() == 0 {
        0
    } else {
        10 * digits_value(digits.drop_last()) + digit_value(digits.last())
    }
}

/// The text without one leading plus sign, if it has one.
pub open spec fn unsigned_digits(text: Seq<char>) -> Seq<char> {
    if text.len() > 0 && text[0] == '+' {
        text.skip(1)
    } else {
        text
    }
}

/// The unsigned 64-bit number that a decimal text denotes: an optional plus
/// sign, then at least one digit and nothing else, the value within range.
pub open spec fn decimal_u64(text: Seq<char>) -> Option<u64> {
    let digits = unsigned_digits(text);
    if digits.len() > 0 && all_decimal_digits(digits) && digits_value(digits) <= u64::MAX {
        Some(digits_value(digits) as u64)
    } else {
        None
    }
}

/// The character of a digit from 0 to 9.
pub open spec fn digit_char(d: nat) -> char {
    (48 + d) as u8 as char
}

/// The decimal text of a number: its digits, most significant first, without
/// sign or leading zeros. Zero is the one digit 0.
pub open spec fn decimal_digits(n: nat) -> Seq<char>
    decreases n,
{
    if n < 10 {
        seq![digit_char(n)]
    } else {
        decimal_digits(n / 10).push(digit_char(n % 10))
    }
}

/// A longer run of digits denotes at least as much as any of its prefixes.
proof fn lemma_digits_value_prefix(digits: Seq<char>, k: int)
    requires
        0 <= k <= digits.len(),
    ensures
        digits_value(digits.take(k)) <= digits_value(digits),
    decreases digits.len(),
{
    if k == digits.len() {
        assert(digits.take(k) =~= digits);
    } else {
        lemma_digits_value_prefix(digits.drop_last(), k);
        assert(digits.drop_last().take(k) =~= digits.take(k));
    }
}

/// Reads a decimal unsigned 64-bit number: an optional plus sign followed by
/// digits only. Anything else, and any value above `u64::MAX`, gives `None`.
pub fn parse_decimal_u64(text: &str) -> (r: Option<u64>)
    ensures
        r == decimal_u64(text@),
{
    broadcast use vstd::string::is_ascii_spec_bytes;

    let ghost digits = unsigned_digits(text@);
    if !text.is_ascii() {
        proof {
            let i = choose|i: int|
                0 <= i < text@.len() && !('\0' <= #[trigger] text@[i] <= '\u{7f}');
            if text@.len() > 0 && text@[0] == '+' {
                assert(!is_decimal_digit(digits[i - 1]));
            }
        }
        return None;
    }
    let bytes = text.as_bytes();
    let n: usize = bytes.len();
    let start: usize = if n > 0 && bytes[0] == 43u8 {
        1
    } else {
        0
    };
    assert(digits =~= text@.skip(start as int));
    if start == n {
        return None;
    }
    let mut value: u64 = 0;
    let mut i: usize = start;
    while i < n
        invariant
            start <= i <= n,
            n == bytes@.len(),
            n == text@.len(),
            digits == unsigned_digits(text@),
            digits == text@.skip(start as int),
            is_ascii_chars(text@),
            forall|j: int| 0 <= j < text@.len() ==> bytes@[j] == text@[j] as u8,
            all_decimal_digits(digits.take(i - start)),
            value == digits_value(digits.take(i - start)),
        decreases n - i,
    {
        let b: u8 = bytes[i];
        let ghost seen = digits.take(i - start);
        let ghost more = digits.take(i - start + 1);
        assert(more.drop_last() =~= seen);
        if b < 48u8 || b > 57u8 {
            assert(!is_decimal_digit(digits[i - start]));
            return None;
        }
        let d: u64 = (b - 48u8) as u64;
        proof {
            lemma_digits_value_prefix(digits, i - start + 1);
        }
        let scaled: u64 = match value.checked_mul(10) {
            Some(s) => s,
            None => {
                return None;
            },
        };
        value = match scaled.checked_add(d) {
            Some(s) => s,
            None => {
                return None;
            },
        };
        assert forall|j: int| 0 <= j < more.len() implies is_decimal_digit(#[trigger] more[j]) by {
            if j < seen.len() {
                assert(more[j] == seen[j]);
            }
        }
        i = i + 1;
    }
    assert(digits.take(i - start) =~= digits);
    Some(value)
}

/// Writes a number in decimal.
pub fn decimal_text(n: u64) -> (text: String)
    ensures
        text@ == decimal_digits(n as nat),
    decreases n,
{
    let mut text = if n < 10 {
        String::new()
    } else {
        decimal_text(n / 10)
    };
    let digit: u8 = 48u8 + (n % 10) as u8;
    push_char(&mut text, digit as char);
    text
}

/// The digits of a number are digits, and they denote the number.
pub proof fn lemma_decimal_digits_denote(n: nat)
    ensures
        decimal_digits(n).len() > 0,
        all_decimal_digits(decimal_digits(n)),
        digits_value(decimal_digits(n)) == n,
    decreases n,
{
    if n < 10 {
        assert(decimal_digits(n).drop_last() =~= Seq::<char>::empty());
        assert(digits_value(decimal_digits(n).drop_last()) == 0);
    } else {
        lemma_decimal_digits_denote(n / 10);
        let before = decimal_digits(n / 10);
        let all = before.push(digit_char(n % 10));
        assert(all.drop_last() =~= before);
        assert forall|i: int| 0 <= i < all.len() implies is_decimal_digit(#[trigger] all[i]) by {
            if i < before.len() {
                assert(all[i] == before[i]);
            }
        }
    }
}

/// What is written is read back: the decimal text of an unsigned 64-bit
/// number denotes that number.
pub proof fn lemma_written_number_reads_back(n: u64)
    ensures
        decimal_u64(decimal_digits(n as nat)) == Some(n),
{
    lemma_decimal_digits_denote(n as nat);
    let text = decimal_digits(n as nat);
    assert(is_decimal_digit(text[0]));
}

} // verus!
