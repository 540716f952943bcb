//! The texts that the game's labels show.

use vstd::prelude::*;
use vstd::string::StringExecFns;

verus! {

/// The character for one decimal digit.
pub open spec fn digit(d: int) -> char {
    if d == 0 {
        '0'
    } else if d == 1 {
        '1'
    } else if d == 2 {
        '2'
    } else if d == 3 {
        '3'
    } else if d == 4 {
        '4'
    } else if d == 5 {
        '5'
    } else if d == 6 {
        '6'
    } else if d == 7 {
        '7'
    } else if d == 8 {
        '8'
    } else {
        '9'
    }
}

/// A number written in decimal, without leading zeros.
pub open spec fn decimal(n: nat) -> Seq<char>
    decreases n,
{
    if n < 10 {
        seq![digit(n as int)]
    } else {
        decimal(n / 10).push(digit((n % 10) as int))
    }
}

/// A number written in decimal with at least two digits.
pub open spec fn two_digits(n: nat) -> Seq<char> {
    if n < 10 {
        seq!['0', digit(n as int)]
    } else {
        decimal(n)
    }
}

/// `String::push` of the standard library: the character is added at the end
/// of the text.
#[verifier::external_body]
pub(crate) fn push_char(text: &mut String, c: char)
    ensures
        final(text)@ == old(text)@.push(c),
{
    text.push(c);
}

/// The character for one decimal digit.
fn digit_of(d: u64) -> (c: char)
    requires
        d < 10,
    ensures
        c == digit(d as int),
{
    if d == 0 {
        '0'
    } else if d == 1 {
        '1'
    } else if d == 2 {
        '2'
    } else if d == 3 {
        '3'
    } else if d == 4 {
        '4'
    } else if d == 5 {
        '5'
    } else if d == 6 {
        '6'
    } else if d == 7 {
        '7'
    } else if d == 8 {
        '8'
    } else {
        '9'
    }
}

/// Writes a number in decimal at the end of a text.
fn push_decimal(text: &mut String, n: u64)
    ensures
        final(text)@ == old(text)@ + decimal(n as nat),
    decreases n,
{
    if n >= 10 {
        push_decimal(text, n / 10);
    }
    push_char(text, digit_of(n % 10));
    assert(text@ =~= old(text)@ + decimal(n as nat));
}

/// Writes a number with at least two digits at the end of a text.
pub(crate) fn push_two_digits(text: &mut String, n: u64)
    ensures
        final(text)@ == old(text)@ + two_digits(n as nat),
{
    if n < 10 {
        push_char(text, '0');
    }
    push_decimal(text, n);
    assert(text@ =~= old(text)@ + two_digits(n as nat));
}

/// A whole number written in decimal, with a minus sign if it is below zero.
pub open spec fn integer_text(n: int) -> Seq<char> {
    if n < 0 {
        seq!['-'] + decimal((-n) as nat)
    } else {
        decimal(n as nat)
    }
}

/// The text of the stock label.
pub open spec fn stock_label(stock: i32) -> Seq<char> {
    "Stock: "@ + integer_text(stock as int)
}

/// The text of the day label.
pub open spec fn day_label(day: i32) -> Seq<char> {
    "Day "@ + integer_text(day as int)
}

/// Writes a whole number at the end of a text.
fn push_integer(text: &mut String, n: i32)
    ensures
        final(text)@ == old(text)@ + integer_text(n as int),
{
    if n < 0 {
        push_char(text, '-');
        let size: i64 = -(n as i64);
        push_decimal(text, size as u64);
    } else {
        push_decimal(text, n as u64);
    }
    assert(text@ =~= old(text)@ + integer_text(n as int));
}

/// The text for a label that shows a number: the money, or one of the
/// counts of the tally.
pub fn number_text(n: i32) -> (text: String)
    ensures
        text@ == integer_text(n as int),
{
    let mut text = String::new();
    push_integer(&mut text, n);
    assert(text@ =~= integer_text(n as int));
    text
}

/// The text for the stock label: `Stock: ` and the number of cups.
pub fn stock_text(stock: i32) -> (text: String)
    ensures
        text@ == stock_label(stock),
{
    let mut text = String::from_str("Stock: ");
    push_integer(&mut text, stock);
    text
}

/// The text for the day label: `Day ` and the number of the day.
pub fn day_text(day: i32) -> (text: String)
    ensures
        text@ == day_label(day),
{
    let mut text = String::from_str("Day ");
    push_integer(&mut text, day);
    text
}

} // verus!
