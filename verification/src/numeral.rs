//! Decimal numerals: the digits of a natural number, and the number that a
//! run of digits stands for.

use vstd::prelude::*;
use vstd::string::*;

verus! {

/// Whether `c` is one of the ten ASCII digits.
pub open spec fn is_digit(c: char) -> bool {
    '0' <= c <= '9'
}

/// The number that the digit `c` stands for.
pub open spec fn digit_value(c: char) -> nat {
    (c as int - '0' as int) as nat
}

/// The digit that stands for `d`, for `d` below ten.
pub open spec fn digit_char(d: nat) -> char {
    (d + '0' as nat) as char
}

/// Whether `s` is a numeral: one or more ASCII digits and nothing else.
pub open spec fn is_numeral(s: Seq<char>) -> bool {
    &&& s.len() > 0
    &&& forall|i: int| 0 <= i < s.len() ==> is_digit(#[trigger] s[i])
}

/// The number that the digits of `s` stand for, read in base ten.
pub open spec fn numeral_value(s: Seq<char>) -> nat
    decreases s.len(),
{
    if s.len() == 0 {
        0
    } else {
        numeral_value(s.drop_last()) * 10 + digit_value(s.last())
    }
}

/// The shortest numeral that stands for `n`.
pub open spec fn decimal_digits(n: nat) -> Seq<char>
    decreases n,
{
    if n < 10 {
        seq![digit_char(n)]
    } else {
        decimal_digits(n / 10).push(digit_char(n % 10))
    }
}

/// The digits of a number are a numeral, and it stands for that number.
pub proof fn lemma_decimal_digits(n: nat)
    ensures
        is_numeral(decimal_digits(n)),
        numeral_value(decimal_digits(n)) == n,
        n < 10 ==> decimal_digits(n).len() == 1,
        n >= 10 ==> decimal_digits(n).len() >= 2,
    decreases n,
{
    let digits = decimal_digits(n);
    if n < 10 {
        assert(numeral_value(digits.drop_last()) == 0);
    } else {
        lemma_decimal_digits(n / 10);
        assert(digits.drop_last() =~= decimal_digits(n / 10));
    }
}

/// A zero in front of a run of digits does not change the number.
pub proof fn lemma_leading_zero(s: Seq<char>)
    ensures
        numeral_value(seq!['0'] + s) == numeral_value(s),
    decreases s.len(),
{
    let padded = seq!['0'] + s;
    if s.len() == 0 {
        assert(numeral_value(padded.drop_last()) == 0);
    } else {
        lemma_leading_zero(s.drop_last());
        assert(padded.drop_last() =~= seq!['0'] + s.drop_last());
    }
}

/// What reading a text as a numeral of at most 64 bits, sign included, gives.
#[derive(Clone, Copy, Debug, PartialEq, Eq, Structural)]
pub enum Reading {
    /// The text is empty or holds something other than ASCII digits.
    NotNumeral,
    /// The text is a numeral, and its number is above `i64::MAX`.
    TooLarge,
    /// The text is a numeral that stands for this number.
    Value(i64),
}

/// The reading of `s`.
pub open spec fn reading_of(s: Seq<char>) -> Reading {
    if !is_numeral(s) {
        Reading::NotNumeral
    } else if numeral_value(s) > i64::MAX {
        Reading::TooLarge
    } else {
        Reading::Value(numeral_value(s) as i64)
    }
}

/// Reads `text` as a numeral.
pub fn read_numeral(text: &str) -> (reading: Reading)
    ensures
        reading == reading_of(text@),
{
    let mut value: i64 = 0;
    let mut too_large = false;
    let mut seen = false;
    for c in it: text.chars()
        invariant
            seen == (it.index() > 0),
            it.seq() == text@,
            forall|k: int| 0 <= k < it.index() ==> is_digit(#[trigger] text@[k]),
            !too_large ==> value == numeral_value(text@.take(it.index() as int)),
            too_large ==> numeral_value(text@.take(it.index() as int)) > i64::MAX,
            0 <= value,
    {
        if !('0' <= c && c <= '9') {
            return Reading::NotNumeral;
        }
        let digit: i64 = (c as u32 - '0' as u32) as i64;
        proof {
            assert(text@.take(it.index() + 1).drop_last() =~= text@.take(it.index() as int));
        }
        if !too_large {
            if value > (i64::MAX - digit) / 10 {
                too_large = true;
            } else {
                value = value * 10 + digit;
            }
        }
        seen = true;
    }
    proof {
        assert(text@.take(text@.len() as int) =~= text@);
    }
    if !seen {
        Reading::NotNumeral
    } else if too_large {
        Reading::TooLarge
    } else {
        Reading::Value(value)
    }
}

/// The text of one digit.
fn digit_text(d: u64) -> (t: &'static str)
    requires
        d < 10,
    ensures
        t@ == seq![digit_char(d as nat)],
{
    proof {
        reveal_strlit("0");
        reveal_strlit("1");
        reveal_strlit("2");
        reveal_strlit("3");
        reveal_strlit("4");
        reveal_strlit("5");
        reveal_strlit("6");
        reveal_strlit("7");
        reveal_strlit("8");
        reveal_strlit("9");
    }
    match d {
        0 => "0",
        1 => "1",
        2 => "2",
        3 => "3",
        4 => "4",
        5 => "5",
        6 => "6",
        7 => "7",
        8 => "8",
        _ => "9",
    }
}

/// Writes the digits of `n` at the end of `out`.
pub fn append_decimal(out: &mut String, n: u64)
    ensures
        final(out)@ == old(out)@ + decimal_digits(n as nat),
    decreases n,
{
    if n >= 10 {
        append_decimal(out, n / 10);
    }
    out.append(digit_text(n % 10));
}

} // verus!
