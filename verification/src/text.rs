//! Decimal rendering of integers and small helpers for building text.

use vstd::prelude::*;
use vstd::string::StringExecFns;

verus! {

/// The character that stands for the decimal digit `d`.
pub open spec fn digit_char(d: int) -> char {
    if d == 0 {
        '0'
    } else if d == 1 {
        '1'
    } else if d == 2 {
        '2'
    } else if d == 3 {
        '3'
    } else if d == 4 {
        '4'
    } else if d == 5 {
        '5'
    } else if d == 6 {
        '6'
    } else if d == 7 {
        '7'
    } else if d == 8 {
        '8'
    } else {
        '9'
    }
}

/// The decimal digits of a natural number, most significant first, without
/// leading zeros (`0` is written as the single digit `0`).
pub open spec fn nat_text(n: nat) -> Seq<char>
    decreases n,
{
    if n < 10 {
        seq![digit_char(n as int)]
    } else {
        nat_text(n / 10).push(digit_char((n % 10) as int))
    }
}

/// The decimal text of an integer: a minus sign for negative values, then the
/// digits of the magnitude.
pub open spec fn int_text(n: int) -> Seq<char> {
    if n < 0 {
        seq!['-'] + nat_text((-n) as nat)
    } else {
        nat_text(n as nat)
    }
}

/// The value of a decimal digit character; 0 for every other character.
pub open spec fn digit_value(c: char) -> nat {
    if c == '1' {
        1
    } else if c == '2' {
        2
    } else if c == '3' {
        3
    } else if c == '4' {
        4
    } else if c == '5' {
        5
    } else if c == '6' {
        6
    } else if c == '7' {
        7
    } else if c == '8' {
        8
    } else if c == '9' {
        9
    } else {
        0
    }
}

/// The number that a sequence of decimal digits, most significant first,
/// stands for.
pub open spec fn digits_value(digits: Seq<char>) -> nat
    decreases digits.len(),
{
    if digits.len() == 0 {
        0
    } else {
        digits_value(digits.drop_last()) * 10 + digit_value(digits.last())
    }
}

/// The decimal text of a number is never empty; it starts with the digit
/// `0` only for the number 0.
pub proof fn lemma_nat_text_shape(n: nat)
    ensures
        nat_text(n).len() >= 1,
        nat_text(n)[0] == '0' <==> n == 0,
    decreases n,
{
    if n >= 10 {
        lemma_nat_text_shape(n / 10);
    }
}

/// Reading the decimal text of a number gives the number back.
pub proof fn lemma_nat_text_round_trip(n: nat)
    ensures
        digits_value(nat_text(n)) == n,
    decreases n,
{
    if n < 10 {
        let text = nat_text(n);
        assert(text.drop_last() =~= Seq::<char>::empty());
        assert(digits_value(text.drop_last()) == 0);
        assert(text.last() == digit_char(n as int));
    } else {
        lemma_nat_text_round_trip(n / 10);
        let text = nat_text(n);
        assert(text.drop_last() =~= nat_text(n / 10));
        assert(text.last() == digit_char((n % 10) as int));
    }
}

/// The text of a negative integer is a minus sign before the text of its
/// magnitude, and the text of any other integer is the text of the number
/// itself: reading the digits gives the magnitude back.
pub proof fn lemma_int_text_round_trip(n: int)
    ensures
        n >= 0 ==> digits_value(int_text(n)) == n,
        n < 0 ==> int_text(n)[0] == '-' && digits_value(int_text(n).skip(1)) == -n,
{
    if n >= 0 {
        lemma_nat_text_round_trip(n as nat);
    } else {
        lemma_nat_text_round_trip((-n) as nat);
        assert(int_text(n).skip(1) =~= nat_text((-n) as nat));
    }
}

/// The one-character string for a decimal digit.
fn digit_str(d: u32) -> (s: &'static str)
    requires
        d < 10,
    ensures
        s@ == seq![digit_char(d as int)],
{
    proof {
        reveal_strlit("0");
        reveal_strlit("1");
        reveal_strlit("2");
        reveal_strlit("3");
        reveal_strlit("4");
        reveal_strlit("5");
        reveal_strlit("6");
        reveal_strlit("7");
        reveal_strlit("8");
        reveal_strlit("9");
    }
    let s = if d == 0 {
        "0"
    } else if d == 1 {
        "1"
    } else if d == 2 {
        "2"
    } else if d == 3 {
        "3"
    } else if d == 4 {
        "4"
    } else if d == 5 {
        "5"
    } else if d == 6 {
        "6"
    } else if d == 7 {
        "7"
    } else if d == 8 {
        "8"
    } else {
        "9"
    };
    assert(s@ =~= seq![digit_char(d as int)]);
    s
}

/// Renders a natural number in decimal.
pub fn nat_to_string(n: u32) -> (s: String)
    ensures
        s@ == nat_text(n as nat),
    decreases n,
{
    if n < 10 {
        String::from_str(digit_str(n))
    } else {
        let mut s = nat_to_string(n / 10);
        s.append(digit_str(n % 10));
        assert(s@ =~= nat_text(n as nat));
        s
    }
}

/// Renders a signed 32-bit integer in decimal, as `{}` formatting does.
pub fn int_to_string(n: i32) -> (s: String)
    ensures
        s@ == int_text(n as int),
{
    if n < 0 {
        let magnitude: u32 = if n == i32::MIN {
            2147483648u32
        } else {
            (-n) as u32
        };
        let mut s = String::from_str("-");
        let digits = nat_to_string(magnitude);
        s.append(digits.as_str());
        proof {
            reveal_strlit("-");
            assert(s@ =~= int_text(n as int));
        }
        s
    } else {
        nat_to_string(n as u32)
    }
}

} // verus!
