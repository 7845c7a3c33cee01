//! Decimal text of machine integers, as it appears in messages.

use vstd::prelude::*;

verus! {

/// The character that writes the digit `d`.
pub open spec fn digit_char(d: int) -> char
    recommends
        0 <= d < 10,
{
    if d == 0 {
        '0'
    } else if d == 1 {
        '1'
    } else if d == 2 {
        '2'
    } else if d == 3 {
        '3'
    } else if d == 4 {
        '4'
    } else if d == 5 {
        '5'
    } else if d == 6 {
        '6'
    } else if d == 7 {
        '7'
    } else if d == 8 {
        '8'
    } else {
        '9'
    }
}

/// The decimal digits of `n`, most significant first, without leading zeros.
pub open spec fn natural_text(n: nat) -> Seq<char>
    decreases n,
{
    if n < 10 {
        seq![digit_char(n as int)]
    } else {
        natural_text(n / 10).push(digit_char((n % 10) as int))
    }
}

/// The decimal text of `value`: a minus sign for a negative value, followed by
/// the digits of its magnitude.
pub open spec fn decimal_text(value: int) -> Seq<char> {
    if value < 0 {
        seq!['-'] + natural_text((-value) as nat)
    } else {
        natural_text(value as nat)
    }
}

/// The digit that `c` writes; 9 for the last digit character.
pub open spec fn digit_value(c: char) -> int {
    if c == '0' {
        0
    } else if c == '1' {
        1
    } else if c == '2' {
        2
    } else if c == '3' {
        3
    } else if c == '4' {
        4
    } else if c == '5' {
        5
    } else if c == '6' {
        6
    } else if c == '7' {
        7
    } else if c == '8' {
        8
    } else {
        9
    }
}

/// The number that a run of digits writes.
pub open spec fn natural_value(text: Seq<char>) -> int
    decreases text.len(),
{
    if text.len() == 0 {
        0
    } else {
        natural_value(text.drop_last()) * 10 + digit_value(text.last())
    }
}

/// The integer that a decimal text writes.
pub open spec fn decimal_value(text: Seq<char>) -> int {
    if text.len() > 0 && text[0] == '-' {
        -natural_value(text.subrange(1, text.len() as int))
    } else {
        natural_value(text)
    }
}

/// The digits of a number are not empty, hold no sign, and write that number.
pub proof fn lemma_natural_text_writes_its_number(n: nat)
    ensures
        natural_text(n).len() >= 1,
        natural_text(n)[0] != '-',
        natural_value(natural_text(n)) == n,
    decreases n,
{
    let text = natural_text(n);
    if n >= 10 {
        lemma_natural_text_writes_its_number(n / 10);
        assert(text.drop_last() =~= natural_text(n / 10));
    } else {
        assert(natural_value(text.drop_last()) == 0);
    }
    assert(digit_value(text.last()) == n % 10);
}

/// The decimal text of an integer writes that integer, so two integers with
/// the same text are the same.
pub proof fn lemma_decimal_text_writes_its_value(value: int)
    ensures
        decimal_value(decimal_text(value)) == value,
{
    if value < 0 {
        let digits = natural_text((-value) as nat);
        lemma_natural_text_writes_its_number((-value) as nat);
        assert(decimal_text(value).subrange(1, decimal_text(value).len() as int) =~= digits);
    } else {
        lemma_natural_text_writes_its_number(value as nat);
    }
}

/// The one-character text of a single digit.
fn digit_text(d: u32) -> (text: &'static str)
    requires
        d < 10,
    ensures
        text@ == seq![digit_char(d as int)],
{
    proof {
        reveal_strlit("0");
        reveal_strlit("1");
        reveal_strlit("2");
        reveal_strlit("3");
        reveal_strlit("4");
        reveal_strlit("5");
        reveal_strlit("6");
        reveal_strlit("7");
        reveal_strlit("8");
        reveal_strlit("9");
    }
    if d == 0 {
        "0"
    } else if d == 1 {
        "1"
    } else if d == 2 {
        "2"
    } else if d == 3 {
        "3"
    } else if d == 4 {
        "4"
    } else if d == 5 {
        "5"
    } else if d == 6 {
        "6"
    } else if d == 7 {
        "7"
    } else if d == 8 {
        "8"
    } else {
        "9"
    }
}

/// Appends the digits of `n` to `text`.
fn push_natural(text: &mut String, n: u32)
    ensures
        final(text)@ == old(text)@ + natural_text(n as nat),
    decreases n,
{
    if n >= 10 {
        push_natural(text, n / 10);
    }
    text.append(digit_text(n % 10));
}

/// Writes `value` in decimal.
pub fn decimal(value: i32) -> (text: String)
    ensures
        text@ == decimal_text(value as int),
{
    let mut text = String::new();
    let wide: i64 = value as i64;
    if wide < 0 {
        proof {
            reveal_strlit("-");
        }
        text.append("-");
        push_natural(&mut text, (-wide) as u32);
    } else {
        push_natural(&mut text, wide as u32);
    }
    text
}

} // verus!
