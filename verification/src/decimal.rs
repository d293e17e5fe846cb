//! Decimal notation of integers: what it is, how it is written, how it is read.

use vstd::prelude::*;
use vstd::string::*;
use vstd::utf8::*;

verus! {

/// The character that writes the digit `d`, for `d` from 0 to 9.
pub open spec fn digit_char(d: int) -> char {
    if d == 0 {
        '0'
    } else if d == 1 {
        '1'
    } else if d == 2 {
        '2'
    } else if d == 3 {
        '3'
    } else if d == 4 {
        '4'
    } else if d == 5 {
        '5'
    } else if d == 6 {
        '6'
    } else if d == 7 {
        '7'
    } else if d == 8 {
        '8'
    } else {
        '9'
    }
}

/// The decimal notation of a natural number: no sign, no leading zero, `"0"` for zero.
pub open spec fn decimal_nat(n: nat) -> Seq<char>
    decreases n,
{
    if n < 10 {
        seq![digit_char(n as int)]
    } else {
        decimal_nat(n / 10).push(digit_char((n % 10) as int))
    }
}

/// The decimal notation of an integer: that of its magnitude, after `-` when it is negative.
pub open spec fn decimal(i: int) -> Seq<char> {
    if i < 0 {
        seq!['-'] + decimal_nat((-i) as nat)
    } else {
        decimal_nat(i as nat)
    }
}

/// The one-character text of the digit `d`.
fn digit_text(d: u8) -> (text: &'static str)
    requires
        d < 10,
    ensures
        text@ == seq![digit_char(d as int)],
{
    proof {
        reveal_strlit("0");
        reveal_strlit("1");
        reveal_strlit("2");
        reveal_strlit("3");
        reveal_strlit("4");
        reveal_strlit("5");
        reveal_strlit("6");
        reveal_strlit("7");
        reveal_strlit("8");
        reveal_strlit("9");
    }
    let text = match d {
        0 => "0",
        1 => "1",
        2 => "2",
        3 => "3",
        4 => "4",
        5 => "5",
        6 => "6",
        7 => "7",
        8 => "8",
        _ => "9",
    };
    assert(text@ =~= seq![digit_char(d as int)]);
    text
}

/// Appends the decimal notation of `n` to `text`.
pub fn push_decimal_nat(text: &mut String, n: u64)
    ensures
        final(text)@ == old(text)@ + decimal_nat(n as nat),
    decreases n,
{
    if n >= 10 {
        push_decimal_nat(text, n / 10);
    }
    let last: u8 = (n % 10) as u8;
    text.append(digit_text(last));
    assert(final(text)@ =~= old(text)@ + decimal_nat(n as nat));
}

/// Appends the decimal notation of `i` to `text`.
pub fn push_decimal(text: &mut String, i: i64)
    ensures
        final(text)@ == old(text)@ + decimal(i as int),
{
    if i < 0 {
        proof {
            reveal_strlit("-");
        }
        text.append("-");
        let magnitude: u64 = if i == i64::MIN {
            0x8000_0000_0000_0000u64
        } else {
            (-i) as u64
        };
        push_decimal_nat(text, magnitude);
        assert(final(text)@ =~= old(text)@ + decimal(i as int));
    } else {
        push_decimal_nat(text, i as u64);
    }
}

/// Whether `c` is one of the ten decimal digits.
pub open spec fn is_digit(c: char) -> bool {
    '0' <= c && c <= '9'
}

/// The number that the digit `c` writes.
pub open spec fn digit_value(c: char) -> nat {
    (c as int - '0' as int) as nat
}

/// Whether every character of `digits` is a decimal digit.
pub open spec fn all_digits(digits: Seq<char>) -> bool {
    forall|i: int| 0 <= i < digits.len() ==> is_digit(#[trigger] digits[i])
}

/// The number that a run of decimal digits writes, leading zeros allowed; 0 for the empty run.
pub open spec fn digits_value(digits: Seq<char>) -> nat
    decreases digits.len(),
{
    if digits.len() == 0 {
        0
    } else {
        digits_value(digits.drop_last()) * 10 + digit_value(digits.last())
    }
}

/// `text` without its leading `+`, if it has one.
pub open spec fn unsigned_part(text: Seq<char>) -> Seq<char> {
    if text.len() > 0 && text[0] == '+' {
        text.subrange(1, text.len() as int)
    } else {
        text
    }
}

/// The `u16` that `text` writes: an optional `+`, then one or more decimal digits and nothing
/// else, whose value fits; `None` for every other text.
pub open spec fn parse_u16(text: Seq<char>) -> Option<u16> {
    let digits = unsigned_part(text);
    if digits.len() > 0 && all_digits(digits) && digits_value(digits) <= u16::MAX {
        Some(digits_value(digits) as u16)
    } else {
        None
    }
}

/// Reading one more digit multiplies what was read by ten and adds the digit.
proof fn lemma_digits_value_step(digits: Seq<char>, k: int)
    requires
        0 <= k < digits.len(),
    ensures
        digits_value(digits.subrange(0, k + 1)) == digits_value(digits.subrange(0, k)) * 10
            + digit_value(digits[k]),
{
    let longer = digits.subrange(0, k + 1);
    assert(longer.drop_last() =~= digits.subrange(0, k));
    assert(longer.last() == digits[k]);
}

/// A prefix of a run of digits writes no more than the whole run.
proof fn lemma_digits_value_prefix(digits: Seq<char>, k: int)
    requires
        0 <= k <= digits.len(),
    ensures
        digits_value(digits.subrange(0, k)) <= digits_value(digits),
    decreases digits.len() - k,
{
    if k == digits.len() {
        assert(digits.subrange(0, k) =~= digits);
    } else {
        lemma_digits_value_step(digits, k);
        lemma_digits_value_prefix(digits, k + 1);
    }
}

/// The decimal notation of a number is a run of digits that writes that number.
pub proof fn decimal_nat_writes_its_number(n: nat)
    ensures
        decimal_nat(n).len() > 0,
        all_digits(decimal_nat(n)),
        digits_value(decimal_nat(n)) == n,
    decreases n,
{
    let text = decimal_nat(n);
    if n < 10 {
        assert(text.drop_last() =~= Seq::<char>::empty());
        assert(digits_value(text.drop_last()) == 0);
    } else {
        decimal_nat_writes_its_number(n / 10);
        assert(text.drop_last() =~= decimal_nat(n / 10));
        assert forall|i: int| 0 <= i < text.len() implies is_digit(#[trigger] text[i]) by {
            if i < text.len() - 1 {
                assert(is_digit(decimal_nat(n / 10)[i]));
            }
        }
    }
}

/// What is written in decimal notation is read back as the same number, as long as it
/// fits a `u16`.
pub proof fn decimal_is_read_back(n: nat)
    requires
        n <= u16::MAX,
    ensures
        parse_u16(decimal_nat(n)) == Some(n as u16),
{
    decimal_nat_writes_its_number(n);
    assert(is_digit(decimal_nat(n)[0]));
}

/// Reads a `u16` in decimal notation, as `parse_u16` defines it.
pub fn read_u16(text: &str) -> (number: Option<u16>)
    ensures
        number == parse_u16(text@),
{
    broadcast use is_ascii_spec_bytes;

    let ghost digits = unsigned_part(text@);
    if !text.is_ascii() {
        assert(!(digits.len() > 0 && all_digits(digits))) by {
            if digits.len() > 0 && all_digits(digits) {
                assert forall|i: int| 0 <= i < text@.len() implies '\0' <= #[trigger] text@[i]
                    <= '\u{7f}' by {
                    if digits.len() == text@.len() {
                        assert(is_digit(digits[i]));
                    } else if i > 0 {
                        assert(is_digit(digits[i - 1]));
                    }
                }
            }
        }
        return None;
    }
    let bytes = text.as_bytes();
    let n = bytes.len();
    let start: usize = if n > 0 && bytes[0] == 43u8 {
        1
    } else {
        0
    };
    assert(digits =~= text@.subrange(start as int, n as int));
    assert(forall|j: int| 0 <= j < n ==> bytes@[j] == text@[j] as u8);
    if start == n {
        return None;
    }
    let mut value: u32 = 0;
    let mut i: usize = start;
    while i < n
        invariant
            start <= i <= n,
            n == text@.len(),
            n == bytes@.len(),
            is_ascii_chars(text@),
            forall|j: int| 0 <= j < n ==> bytes@[j] == text@[j] as u8,
            digits == unsigned_part(text@),
            digits == text@.subrange(start as int, n as int),
            all_digits(digits.subrange(0, i - start)),
            value == digits_value(digits.subrange(0, i - start)),
            value <= u16::MAX,
        decreases n - i,
    {
        let byte = bytes[i];
        assert(byte == text@[i as int] as u8);
        assert(digits[i - start] == text@[i as int]);
        proof {
            lemma_digits_value_step(digits, i - start);
        }
        if byte < 48u8 || byte > 57u8 {
            assert(!is_digit(digits[i - start]));
            return None;
        }
        value = value * 10 + (byte - 48u8) as u32;
        assert forall|j: int| 0 <= j < i + 1 - start implies is_digit(
            #[trigger] digits.subrange(0, i + 1 - start)[j],
        ) by {
            if j < i - start {
                assert(is_digit(digits.subrange(0, i - start)[j]));
            }
        }
        if value > 65535u32 {
            proof {
                lemma_digits_value_prefix(digits, i + 1 - start);
            }
            return None;
        }
        i = i + 1;
    }
    assert(digits.subrange(0, i - start) =~= digits);
    Some(value as u16)
}

} // verus!
