//! Decimal notation of natural numbers, and of bytes in particular.

use vstd::prelude::*;
use vstd::string::StringExecFns;

verus! {

/// The character that writes a single decimal digit.
pub open spec fn digit_char(digit: nat) -> char
    recommends
        digit < 10,
{
    if digit == 0 {
        '0'
    } else if digit == 1 {
        '1'
    } else if digit == 2 {
        '2'
    } else if digit == 3 {
        '3'
    } else if digit == 4 {
        '4'
    } else if digit == 5 {
        '5'
    } else if digit == 6 {
        '6'
    } else if digit == 7 {
        '7'
    } else if digit == 8 {
        '8'
    } else {
        '9'
    }
}

/// Tells whether a character is one of `0` to `9`.
pub open spec fn is_digit_char(c: char) -> bool {
    exists|digit: nat| digit < 10 && c == #[trigger] digit_char(digit)
}

/// The digit that a character writes.
pub open spec fn digit_value(c: char) -> nat
    recommends
        is_digit_char(c),
{
    choose|digit: nat| digit < 10 && c == #[trigger] digit_char(digit)
}

/// The decimal notation of a number: plain digits, the most significant
/// first, with no sign, no padding and no separators.
pub open spec fn decimal_text(n: nat) -> Seq<char>
    decreases n,
{
    if n < 10 {
        seq![digit_char(n)]
    } else {
        decimal_text(n / 10).push(digit_char(n % 10))
    }
}

/// The number that a run of digits denotes, read as decimal notation.
pub open spec fn decimal_value(digits: Seq<char>) -> nat
    decreases digits.len(),
{
    if digits.len() == 0 {
        0
    } else {
        decimal_value(digits.drop_last()) * 10 + digit_value(digits.last())
    }
}

/// Each digit is written by a character of its own.
pub proof fn lemma_digit_value(digit: nat)
    requires
        digit < 10,
    ensures
        is_digit_char(digit_char(digit)),
        digit_value(digit_char(digit)) == digit,
{
}

/// Decimal notation is made of digits only, is never empty, and starts
/// with `0` for the number zero alone.
pub proof fn lemma_decimal_text_shape(n: nat)
    ensures
        decimal_text(n).len() >= 1,
        forall|i: int| 0 <= i < decimal_text(n).len() ==> is_digit_char(#[trigger] decimal_text(n)[i]),
        decimal_text(n)[0] == '0' <==> n == 0,
    decreases n,
{
    if n < 10 {
        lemma_digit_value(n);
    } else {
        lemma_decimal_text_shape(n / 10);
        lemma_digit_value(n % 10);
    }
}

/// Reading the decimal notation of a number gives the number back.
pub proof fn lemma_decimal_value_of_text(n: nat)
    ensures
        decimal_value(decimal_text(n)) == n,
    decreases n,
{
    if n < 10 {
        lemma_digit_value(n);
        let text = decimal_text(n);
        assert(text.drop_last() =~= Seq::<char>::empty());
        assert(decimal_value(text.drop_last()) == 0);
    } else {
        lemma_decimal_value_of_text(n / 10);
        lemma_digit_value(n % 10);
        let text = decimal_text(n);
        assert(text.drop_last() =~= decimal_text(n / 10));
    }
}

/// Different numbers have different decimal notations.
pub proof fn lemma_decimal_text_injective(m: nat, n: nat)
    requires
        decimal_text(m) == decimal_text(n),
    ensures
        m == n,
{
    lemma_decimal_value_of_text(m);
    lemma_decimal_value_of_text(n);
}

/// A byte is written with one to three digits.
pub proof fn lemma_byte_text_len(byte: u8)
    ensures
        1 <= decimal_text(byte as nat).len() <= 3,
{
    reveal_with_fuel(decimal_text, 3);
}

/// The text of a single decimal digit.
fn digit_str(digit: u8) -> (text: &'static str)
    requires
        digit < 10,
    ensures
        text@ == seq![digit_char(digit as nat)],
{
    proof {
        reveal_strlit("0");
        reveal_strlit("1");
        reveal_strlit("2");
        reveal_strlit("3");
        reveal_strlit("4");
        reveal_strlit("5");
        reveal_strlit("6");
        reveal_strlit("7");
        reveal_strlit("8");
        reveal_strlit("9");
    }
    let text = if digit == 0 {
        "0"
    } else if digit == 1 {
        "1"
    } else if digit == 2 {
        "2"
    } else if digit == 3 {
        "3"
    } else if digit == 4 {
        "4"
    } else if digit == 5 {
        "5"
    } else if digit == 6 {
        "6"
    } else if digit == 7 {
        "7"
    } else if digit == 8 {
        "8"
    } else {
        "9"
    };
    assert(text@ =~= seq![digit_char(digit as nat)]);
    text
}

/// Writes a byte in decimal notation.
pub fn byte_to_decimal(byte: u8) -> (text: String)
    ensures
        text@ == decimal_text(byte as nat),
{
    let mut text = String::new();
    if byte >= 100 {
        text.append(digit_str(byte / 100));
    }
    if byte >= 10 {
        text.append(digit_str(byte / 10 % 10));
    }
    text.append(digit_str(byte % 10));
    proof {
        reveal_with_fuel(decimal_text, 3);
        assert(text@ =~= decimal_text(byte as nat));
    }
    text
}

} // verus!
