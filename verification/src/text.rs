//! Numbers as text.

use vstd::prelude::*;
use vstd::string::StringExecFns;

verus! {

/// The character of a decimal digit.
pub open spec fn digit(d: nat) -> char
    recommends
        d < 10,
{
    if d == 0 {
        '0'
    } else if d == 1 {
        '1'
    } else if d == 2 {
        '2'
    } else if d == 3 {
        '3'
    } else if d == 4 {
        '4'
    } else if d == 5 {
        '5'
    } else if d == 6 {
        '6'
    } else if d == 7 {
        '7'
    } else if d == 8 {
        '8'
    } else {
        '9'
    }
}

/// The value of a decimal digit's character; 0 for any other character.
pub open spec fn digit_value(c: char) -> nat {
    if c == '1' {
        1
    } else if c == '2' {
        2
    } else if c == '3' {
        3
    } else if c == '4' {
        4
    } else if c == '5' {
        5
    } else if c == '6' {
        6
    } else if c == '7' {
        7
    } else if c == '8' {
        8
    } else if c == '9' {
        9
    } else {
        0
    }
}

pub open spec fn is_digit(c: char) -> bool {
    c == '0' || digit_value(c) > 0
}

/// A number in decimal notation, most significant digit first, without leading zeros.
pub open spec fn decimal(n: nat) -> Seq<char>
    decreases n,
{
    if n < 10 {
        seq![digit(n)]
    } else {
        decimal(n / 10).push(digit(n % 10))
    }
}

/// The number that a string of decimal digits denotes.
pub open spec fn decimal_value(text: Seq<char>) -> nat
    decreases text.len(),
{
    if text.len() == 0 {
        0
    } else {
        10 * decimal_value(text.drop_last()) + digit_value(text.last())
    }
}

/// Decimal notation uses digits only, at least one of them, and denotes the number it
/// was made from. So two numbers with the same notation are the same number.
pub proof fn lemma_decimal_reads_back(n: nat)
    ensures
        decimal(n).len() >= 1,
        forall|i: int| 0 <= i < decimal(n).len() ==> is_digit(#[trigger] decimal(n)[i]),
        decimal_value(decimal(n)) == n,
        n > 0 ==> decimal(n)[0] != '0',
    decreases n,
{
    if n < 10 {
        let text = decimal(n);
        assert(text.drop_last() =~= Seq::<char>::empty());
        assert(decimal_value(text.drop_last()) == 0);
        assert(text.last() == digit(n));
    } else {
        lemma_decimal_reads_back(n / 10);
        let text = decimal(n);
        assert(text.drop_last() =~= decimal(n / 10));
        assert(text.last() == digit(n % 10));
        assert(digit_value(digit(n % 10)) == n % 10);
    }
}

/// Texts joined one after another make the same text however the joins are grouped.
pub proof fn lemma_joins_regroup(first: Seq<char>, second: Seq<char>, third: Seq<char>)
    ensures
        (first + second) + third == first + (second + third),
{
    assert((first + second) + third =~= first + (second + third));
}

/// Two texts that begin alike and are the same as wholes also end alike.
pub proof fn lemma_same_prefix_same_rest(prefix: Seq<char>, rest: Seq<char>, other: Seq<char>)
    requires
        prefix + rest == prefix + other,
    ensures
        rest == other,
{
    let whole = prefix + rest;
    assert(rest =~= whole.subrange(prefix.len() as int, whole.len() as int));
    assert(other =~= (prefix + other).subrange(prefix.len() as int, (prefix + other).len() as int));
}

/// A run of digits ends at the first character that is no digit. So where two texts are
/// the same, each a run of digits followed by a rest that opens with another character,
/// the digits are the same and so are the rests.
pub proof fn lemma_digits_end_where_they_end(
    digits: Seq<char>,
    others: Seq<char>,
    rest: Seq<char>,
    other_rest: Seq<char>,
)
    requires
        forall|i: int| 0 <= i < digits.len() ==> is_digit(#[trigger] digits[i]),
        forall|i: int| 0 <= i < others.len() ==> is_digit(#[trigger] others[i]),
        rest.len() > 0 && !is_digit(rest[0]),
        other_rest.len() > 0 && !is_digit(other_rest[0]),
        digits + rest == others + other_rest,
    ensures
        digits == others,
        rest == other_rest,
{
    let whole = digits + rest;
    let other_whole = others + other_rest;
    if digits.len() < others.len() {
        assert(whole[digits.len() as int] == rest[0]);
        assert(other_whole[digits.len() as int] == others[digits.len() as int]);
        assert(is_digit(others[digits.len() as int]));
        assert(false);
    }
    if others.len() < digits.len() {
        assert(other_whole[others.len() as int] == other_rest[0]);
        assert(whole[others.len() as int] == digits[others.len() as int]);
        assert(is_digit(digits[others.len() as int]));
        assert(false);
    }
    assert forall|i: int| 0 <= i < digits.len() implies digits[i] == others[i] by {
        assert(whole[i] == digits[i]);
        assert(other_whole[i] == others[i]);
    }
    assert(digits =~= others);
    lemma_same_prefix_same_rest(digits, rest, other_rest);
}

fn digit_text(d: u32) -> (text: &'static str)
    requires
        d < 10,
    ensures
        text@ == seq![digit(d as nat)],
{
    proof {
        reveal_strlit("0");
        reveal_strlit("1");
        reveal_strlit("2");
        reveal_strlit("3");
        reveal_strlit("4");
        reveal_strlit("5");
        reveal_strlit("6");
        reveal_strlit("7");
        reveal_strlit("8");
        reveal_strlit("9");
    }
    let text = match d {
        0 => "0",
        1 => "1",
        2 => "2",
        3 => "3",
        4 => "4",
        5 => "5",
        6 => "6",
        7 => "7",
        8 => "8",
        _ => "9",
    };
    assert(text@ =~= seq![digit(d as nat)]);
    text
}

/// Writes a number in decimal notation.
pub fn render_decimal(n: u32) -> (text: String)
    ensures
        text@ == decimal(n as nat),
    decreases n,
{
    if n < 10 {
        String::from_str(digit_text(n))
    } else {
        let mut text = render_decimal(n / 10);
        text.append(digit_text(n % 10));
        assert(text@ =~= decimal(n as nat));
        text
    }
}

/// A number that may be negative in decimal notation, with a minus sign before the
/// digits of a negative one.
pub open spec fn signed_decimal(n: int) -> Seq<char> {
    if n < 0 {
        seq!['-'] + decimal((-n) as nat)
    } else {
        decimal(n as nat)
    }
}

/// Writes a number that may be negative in decimal notation.
pub fn render_signed(n: i32) -> (text: String)
    ensures
        text@ == signed_decimal(n as int),
{
    if n < 0 {
        proof {
            reveal_strlit("-");
        }
        let magnitude: i64 = -(n as i64);
        let mut text = String::from_str("-");
        let digits = render_decimal(magnitude as u32);
        text.append(digits.as_str());
        assert(text@ =~= signed_decimal(n as int));
        text
    } else {
        render_decimal(n as u32)
    }
}

} // verus!
