//! Decimal numerals: non-negative integers as text and back.

use vstd::prelude::*;
use vstd::string::StringExecFns;

verus! {

/// The character of a decimal digit.
pub open spec fn digit_char(digit: nat) -> char
    recommends
        digit < 10,
{
    if digit == 0 {
        '0'
    } else if digit == 1 {
        '1'
    } else if digit == 2 {
        '2'
    } else if digit == 3 {
        '3'
    } else if digit == 4 {
        '4'
    } else if digit == 5 {
        '5'
    } else if digit == 6 {
        '6'
    } else if digit == 7 {
        '7'
    } else if digit == 8 {
        '8'
    } else {
        '9'
    }
}

/// The value of a decimal digit; `None` for any other character.
pub open spec fn digit_value(c: char) -> Option<nat> {
    if c == '0' {
        Some(0)
    } else if c == '1' {
        Some(1)
    } else if c == '2' {
        Some(2)
    } else if c == '3' {
        Some(3)
    } else if c == '4' {
        Some(4)
    } else if c == '5' {
        Some(5)
    } else if c == '6' {
        Some(6)
    } else if c == '7' {
        Some(7)
    } else if c == '8' {
        Some(8)
    } else if c == '9' {
        Some(9)
    } else {
        None
    }
}

/// The decimal numeral of a number, without leading zeros.
pub open spec fn decimal_text(n: nat) -> Seq<char>
    decreases n,
{
    if n < 10 {
        seq![digit_char(n)]
    } else {
        decimal_text(n / 10).push(digit_char(n % 10))
    }
}

/// The number that a text denotes: the text is not empty and holds decimal
/// digits only. Leading zeros are allowed.
pub open spec fn numeral_value(text: Seq<char>) -> Option<nat>
    decreases text.len(),
{
    if text.len() == 0 {
        None
    } else if text.len() == 1 {
        digit_value(text[0])
    } else {
        match (numeral_value(text.drop_last()), digit_value(text.last())) {
            (Some(value), Some(digit)) => Some(value * 10 + digit),
            _ => None,
        }
    }
}

/// The number that a text denotes, where it fits in 64 bits.
pub open spec fn numeral_u64(text: Seq<char>) -> Option<u64> {
    match numeral_value(text) {
        Some(value) => if value <= u64::MAX {
            Some(value as u64)
        } else {
            None
        },
        None => None,
    }
}

/// Reading the numeral of a number gives the number back.
pub proof fn law_numeral_round_trip(n: nat)
    ensures
        numeral_value(decimal_text(n)) == Some(n),
    decreases n,
{
    if n >= 10 {
        law_numeral_round_trip(n / 10);
        let text = decimal_text(n);
        assert(text.drop_last() =~= decimal_text(n / 10));
        assert(text.last() == digit_char(n % 10));
        assert(decimal_text(n / 10).len() >= 1) by {
            lemma_decimal_text_len(n / 10);
        }
    }
}

proof fn lemma_decimal_text_len(n: nat)
    ensures
        decimal_text(n).len() >= 1,
    decreases n,
{
    if n >= 10 {
        lemma_decimal_text_len(n / 10);
    }
}

/// A numeral is at least as large as each of its proper beginnings, where
/// it is a numeral at all.
proof fn lemma_numeral_grows(text: Seq<char>, cut: int)
    requires
        0 < cut <= text.len(),
    ensures
        numeral_value(text) matches Some(whole) ==> (numeral_value(text.subrange(0, cut))
            matches Some(part) && part <= whole),
    decreases text.len(),
{
    if cut == text.len() {
        assert(text.subrange(0, cut) =~= text);
    } else {
        assert(text.drop_last().subrange(0, cut) =~= text.subrange(0, cut));
        lemma_numeral_grows(text.drop_last(), cut);
    }
}

/// The text of one decimal digit.
fn digit_text(digit: u128) -> (text: &'static str)
    requires
        digit < 10,
    ensures
        text@ == seq![digit_char(digit as nat)],
{
    proof {
        reveal_strlit("0");
        reveal_strlit("1");
        reveal_strlit("2");
        reveal_strlit("3");
        reveal_strlit("4");
        reveal_strlit("5");
        reveal_strlit("6");
        reveal_strlit("7");
        reveal_strlit("8");
        reveal_strlit("9");
    }
    let text = if digit == 0 {
        "0"
    } else if digit == 1 {
        "1"
    } else if digit == 2 {
        "2"
    } else if digit == 3 {
        "3"
    } else if digit == 4 {
        "4"
    } else if digit == 5 {
        "5"
    } else if digit == 6 {
        "6"
    } else if digit == 7 {
        "7"
    } else if digit == 8 {
        "8"
    } else {
        "9"
    };
    assert(text@ =~= seq![digit_char(digit as nat)]);
    text
}

/// Writes a number as a decimal numeral.
pub fn decimal(n: u128) -> (text: String)
    ensures
        text@ == decimal_text(n as nat),
    decreases n,
{
    if n < 10 {
        String::from_str(digit_text(n))
    } else {
        let text = decimal(n / 10).concat(digit_text(n % 10));
        assert(text@ =~= decimal_text(n as nat));
        text
    }
}

/// The decimal numeral of an integer, with a minus sign where it is
/// negative.
pub open spec fn signed_text(n: int) -> Seq<char> {
    if n < 0 {
        seq!['-'] + decimal_text((-n) as nat)
    } else {
        decimal_text(n as nat)
    }
}

/// Writes an integer as a decimal numeral.
pub fn signed_decimal(n: i64) -> (text: String)
    ensures
        text@ == signed_text(n as int),
{
    if n < 0 {
        proof {
            reveal_strlit("-");
        }
        let size: u128 = (-(n as i128)) as u128;
        let digits = decimal(size);
        let text = String::from_str("-").concat(digits.as_str());
        assert(text@ =~= signed_text(n as int));
        text
    } else {
        decimal(n as u128)
    }
}

/// The value of a decimal digit.
fn digit_of(c: char) -> (digit: Option<u64>)
    ensures
        match digit {
            Some(d) => digit_value(c) == Some(d as nat) && d < 10,
            None => digit_value(c) is None,
        },
{
    if c == '0' {
        Some(0)
    } else if c == '1' {
        Some(1)
    } else if c == '2' {
        Some(2)
    } else if c == '3' {
        Some(3)
    } else if c == '4' {
        Some(4)
    } else if c == '5' {
        Some(5)
    } else if c == '6' {
        Some(6)
    } else if c == '7' {
        Some(7)
    } else if c == '8' {
        Some(8)
    } else if c == '9' {
        Some(9)
    } else {
        None
    }
}

/// Reads a decimal numeral. The result is `None` where the text is empty,
/// holds anything but decimal digits, or denotes a number beyond 64 bits.
pub fn parse_decimal(text: &str) -> (value: Option<u64>)
    ensures
        value == numeral_u64(text@),
{
    let length = text.unicode_len();
    if length == 0 {
        return None;
    }
    let mut value: u64 = 0;
    let mut at: usize = 0;
    while at < length
        invariant
            length == text@.len(),
            at <= length,
            at > 0 ==> numeral_value(text@.subrange(0, at as int)) == Some(value as nat),
            at == 0 ==> value == 0,
        decreases length - at,
    {
        let ghost before = text@.subrange(0, at as int);
        let ghost now = text@.subrange(0, at + 1);
        proof {
            assert(now.drop_last() =~= before);
            assert(now.last() == text@[at as int]);
            lemma_numeral_grows(text@, at + 1);
        }
        let digit = match digit_of(text.get_char(at)) {
            Some(digit) => digit,
            None => {
                return None;
            },
        };
        let next = match value.checked_mul(10) {
            Some(tens) => tens.checked_add(digit),
            None => None,
        };
        value = match next {
            Some(next) => next,
            None => {
                return None;
            },
        };
        at = at + 1;
    }
    assert(text@.subrange(0, at as int) =~= text@);
    Some(value)
}

} // verus!
