//! Validation of the counts that a caller gives as text.

use vstd::prelude::*;
use vstd::string::{StrSliceExecFns, StringExecFns};

verus! {

/// A decimal digit.
pub open spec fn is_digit(c: char) -> bool {
    '0' <= c <= '9'
}

/// Every character is a decimal digit.
pub open spec fn all_digits(text: Seq<char>) -> bool {
    forall|i: int| 0 <= i < text.len() ==> is_digit(#[trigger] text[i])
}

/// The number that decimal digits write, most significant digit first.
pub open spec fn decimal_value(digits: Seq<char>) -> nat
    decreases digits.len(),
{
    if digits.len() == 0 {
        0
    } else {
        (decimal_value(digits.drop_last()) * 10 + (digits.last() as int - '0' as int)) as nat
    }
}

/// A text without the plus sign that may stand before its digits.
pub open spec fn unsigned_part(text: Seq<char>) -> Seq<char> {
    if text.len() > 0 && text[0] == '+' {
        text.skip(1)
    } else {
        text
    }
}

/// The `u32` that a text writes: an optional plus sign, then at least one
/// decimal digit and nothing else, with a value that fits. Any other text
/// writes none.
pub open spec fn parsed_u32(text: Seq<char>) -> Option<u32> {
    let digits = unsigned_part(text);
    if digits.len() > 0 && all_digits(digits) && decimal_value(digits) <= u32::MAX {
        Some(decimal_value(digits) as u32)
    } else {
        None
    }
}

/// What a validator answers: the count, if the text writes one from `low` up
/// to but not including `high`, and else the complaint that fits.
pub open spec fn validated(text: Seq<char>, low: u32, high: u32, out_of_range: Seq<char>) -> Result<
    u32,
    Seq<char>,
> {
    match parsed_u32(text) {
        Some(n) => if low <= n < high {
            Ok(n)
        } else {
            Err(out_of_range)
        },
        None => Err("The number of words must be an integer"@),
    }
}

/// An answer with its complaint as plain text.
pub open spec fn answer_of(answer: Result<u32, String>) -> Result<u32, Seq<char>> {
    match answer {
        Ok(n) => Ok(n),
        Err(complaint) => Err(complaint@),
    }
}

/// Among digits, a longer prefix writes no smaller number.
pub proof fn lemma_decimal_value_grows(digits: Seq<char>, n: int)
    requires
        all_digits(digits),
        0 <= n <= digits.len(),
    ensures
        decimal_value(digits.take(n)) <= decimal_value(digits),
    decreases digits.len() - n,
{
    if n < digits.len() {
        lemma_decimal_value_grows(digits, n + 1);
        assert(digits.take(n + 1).drop_last() =~= digits.take(n));
        assert(is_digit(digits[n]));
    } else {
        assert(digits.take(n) =~= digits);
    }
}

/// Reads a `u32` in decimal digits, with an optional plus sign before them.
pub fn parse_u32(text: &str) -> (number: Option<u32>)
    ensures
        number == parsed_u32(text@),
{
    let len = text.unicode_len();
    let start: usize = if len > 0 && text.get_char(0) == '+' {
        1
    } else {
        0
    };
    let ghost digits = unsigned_part(text@);
    if start == len {
        return None;
    }
    let mut value: u64 = 0;
    let mut i: usize = start;
    while i < len
        invariant
            start <= i <= len,
            start <= 1,
            len == text@.len(),
            digits == text@.skip(start as int),
            digits == unsigned_part(text@),
            all_digits(digits.take(i - start)),
            value == decimal_value(digits.take(i - start)),
            value <= u32::MAX,
        decreases len - i,
    {
        let c = text.get_char(i);
        assert(digits[i - start] == c);
        if !('0' <= c && c <= '9') {
            assert(!is_digit(digits[i - start]));
            return None;
        }
        proof {
            let longer = digits.take(i - start + 1);
            assert(longer.drop_last() =~= digits.take(i - start));
            assert(all_digits(longer)) by {
                assert forall|k: int| 0 <= k < longer.len() implies is_digit(
                    #[trigger] longer[k],
                ) by {
                    if k < i - start {
                        assert(digits.take(i - start)[k] == longer[k]);
                    }
                }
            }
        }
        value = value * 10 + (c as u64 - '0' as u64);
        assert(value == decimal_value(digits.take(i - start + 1)));
        if value > u32::MAX as u64 {
            proof {
                if all_digits(digits) {
                    lemma_decimal_value_grows(digits, i - start + 1);
                }
            }
            return None;
        }
        i = i + 1;
    }
    proof {
        assert(digits.take(i - start) =~= digits);
    }
    Some(value as u32)
}

/// Checks a count given as text against the range from `low` up to but not
/// including `high`.
fn validate_count(text: &str, low: u32, high: u32, out_of_range: &str) -> (answer: Result<
    u32,
    String,
>)
    ensures
        answer_of(answer) == validated(text@, low, high, out_of_range@),
{
    match parse_u32(text) {
        Some(n) => {
            if low <= n && n < high {
                Ok(n)
            } else {
                Err(String::from_str(out_of_range))
            }
        },
        None => Err(String::from_str("The number of words must be an integer")),
    }
}

/// Checks the number of words of a passphrase: from 3 to 15.
pub fn validate_word_count(s: &str) -> (answer: Result<u32, String>)
    ensures
        answer_of(answer) == validated(
            s@,
            3,
            16,
            "The number of words must be between 4 and 15"@,
        ),
{
    validate_count(s, 3, 16, "The number of words must be between 4 and 15")
}

/// Checks the number of characters of a password: from 8 to 100.
pub fn validate_character_count(s: &str) -> (answer: Result<u32, String>)
    ensures
        answer_of(answer) == validated(
            s@,
            8,
            101,
            "The number of words must be between 8 and 100"@,
        ),
{
    validate_count(s, 8, 101, "The number of words must be between 8 and 100")
}

/// Checks the number of digits of a PIN: from 3 to 12.
pub fn validate_pin_length(s: &str) -> (answer: Result<u32, String>)
    ensures
        answer_of(answer) == validated(
            s@,
            3,
            13,
            "The number of words must be between 3 and 12"@,
        ),
{
    validate_count(s, 3, 13, "The number of words must be between 3 and 12")
}

} // verus!
