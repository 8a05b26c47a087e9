//! Positional notation of integers: decimal, and lower-case hexadecimal.

use vstd::prelude::*;

verus! {

/// The character for the digit `d`, in bases up to sixteen.
pub open spec fn digit(d: nat) -> char
    recommends
        d < 16,
{
    seq!['0', '1', '2', '3', '4', '5', '6', '7', '8', '9', 'a', 'b', 'c', 'd', 'e', 'f'][d as int]
}

/// `n` in decimal: most significant digit first, no leading zero, `"0"` for zero.
pub open spec fn decimal(n: nat) -> Seq<char>
    decreases n,
{
    if n < 10 {
        seq![digit(n)]
    } else {
        decimal(n / 10).push(digit(n % 10))
    }
}

/// `n` in decimal, with a leading minus sign where `n` is negative.
pub open spec fn signed_decimal(n: int) -> Seq<char> {
    if n < 0 {
        seq!['-'] + decimal((-n) as nat)
    } else {
        decimal(n as nat)
    }
}

/// `n` in lower-case hexadecimal: most significant digit first, no leading
/// zero, `"0"` for zero.
pub open spec fn hexadecimal(n: nat) -> Seq<char>
    decreases n,
{
    if n < 16 {
        seq![digit(n)]
    } else {
        hexadecimal(n / 16).push(digit(n % 16))
    }
}

/// The one-character string for a single digit.
fn digit_text(d: u8) -> (text: &'static str)
    requires
        d < 16,
    ensures
        text@ == seq![digit(d as nat)],
{
    proof {
        reveal_strlit("0");
        reveal_strlit("1");
        reveal_strlit("2");
        reveal_strlit("3");
        reveal_strlit("4");
        reveal_strlit("5");
        reveal_strlit("6");
        reveal_strlit("7");
        reveal_strlit("8");
        reveal_strlit("9");
        reveal_strlit("a");
        reveal_strlit("b");
        reveal_strlit("c");
        reveal_strlit("d");
        reveal_strlit("e");
        reveal_strlit("f");
    }
    let text = match d {
        0 => "0",
        1 => "1",
        2 => "2",
        3 => "3",
        4 => "4",
        5 => "5",
        6 => "6",
        7 => "7",
        8 => "8",
        9 => "9",
        10 => "a",
        11 => "b",
        12 => "c",
        13 => "d",
        14 => "e",
        _ => "f",
    };
    assert(text@ =~= seq![digit(d as nat)]);
    text
}

/// Writes `n` in decimal.
pub fn decimal_text(n: u128) -> (text: String)
    ensures
        text@ == decimal(n as nat),
    decreases n,
{
    if n < 10 {
        String::from_str(digit_text(n as u8))
    } else {
        let mut text = decimal_text(n / 10);
        text.append(digit_text((n % 10) as u8));
        text
    }
}

/// Writes `n` in decimal, with a minus sign in front of a negative number.
pub fn signed_decimal_text(n: i128) -> (text: String)
    ensures
        text@ == signed_decimal(n as int),
{
    if n < 0 {
        let magnitude: u128 = (-(n + 1)) as u128 + 1;
        proof {
            reveal_strlit("-");
        }
        let mut text = String::from_str("-");
        let digits = decimal_text(magnitude);
        text.append(digits.as_str());
        assert(text@ =~= seq!['-'] + decimal(magnitude as nat));
        text
    } else {
        decimal_text(n as u128)
    }
}

/// Writes `n` in lower-case hexadecimal.
pub fn hexadecimal_text(n: u128) -> (text: String)
    ensures
        text@ == hexadecimal(n as nat),
    decreases n,
{
    if n < 16 {
        String::from_str(digit_text(n as u8))
    } else {
        let mut text = hexadecimal_text(n / 16);
        text.append(digit_text((n % 16) as u8));
        text
    }
}

/// A character between `0` and `9`.
pub open spec fn is_decimal_digit(c: char) -> bool {
    '0' <= c && c <= '9'
}

/// A character between `0` and `9` or between `a` and `f`.
pub open spec fn is_hexadecimal_digit(c: char) -> bool {
    is_decimal_digit(c) || ('a' <= c && c <= 'f')
}

/// The number that a text of decimal digits stands for.
pub open spec fn decimal_value(text: Seq<char>) -> nat
    decreases text.len(),
{
    if text.len() == 0 {
        0
    } else {
        (decimal_value(text.drop_last()) * 10 + (text.last() as int - '0' as int)) as nat
    }
}

/// Decimal notation has at least one digit and nothing but digits, starts
/// with a zero only for zero, and stands for the number it was made from.
pub proof fn lemma_decimal_notation(n: nat)
    ensures
        decimal(n).len() >= 1,
        forall|i: int| 0 <= i < decimal(n).len() ==> is_decimal_digit(#[trigger] decimal(n)[i]),
        n > 0 ==> decimal(n)[0] != '0',
        decimal_value(decimal(n)) == n,
    decreases n,
{
    let digits = decimal(n);
    if n < 10 {
        assert(digits.drop_last() =~= Seq::<char>::empty());
        assert(decimal_value(digits.drop_last()) == 0);
        assert(digits.last() as int - '0' as int == n);
    } else {
        lemma_decimal_notation(n / 10);
        assert(digits.drop_last() =~= decimal(n / 10));
        assert(digits.last() as int - '0' as int == n % 10);
        assert(decimal_value(digits) == (n / 10) * 10 + n % 10);
    }
}

/// Two numbers with the same decimal notation are the same number.
pub proof fn lemma_decimal_is_injective(a: nat, b: nat)
    requires
        decimal(a) == decimal(b),
    ensures
        a == b,
{
    lemma_decimal_notation(a);
    lemma_decimal_notation(b);
}

/// A number in decimal can be read back from the front of a text, up to the
/// first character that is no digit: where two such texts are the same, so
/// are the two numbers and what follows them.
pub proof fn lemma_decimal_ends_at_mark(
    a: nat,
    b: nat,
    mark: char,
    after_a: Seq<char>,
    after_b: Seq<char>,
)
    requires
        !is_decimal_digit(mark),
        decimal(a) + seq![mark] + after_a == decimal(b) + seq![mark] + after_b,
    ensures
        a == b,
        after_a == after_b,
{
    let digits_a = decimal(a);
    let digits_b = decimal(b);
    let text_a = digits_a + seq![mark] + after_a;
    let text_b = digits_b + seq![mark] + after_b;
    lemma_decimal_notation(a);
    lemma_decimal_notation(b);
    if digits_a.len() < digits_b.len() {
        assert(text_a[digits_a.len() as int] == mark);
        assert(text_b[digits_a.len() as int] == digits_b[digits_a.len() as int]);
    } else if digits_b.len() < digits_a.len() {
        assert(text_b[digits_b.len() as int] == mark);
        assert(text_a[digits_b.len() as int] == digits_a[digits_b.len() as int]);
    }
    assert(digits_a.len() == digits_b.len());
    assert forall|i: int| 0 <= i < digits_a.len() implies digits_a[i] == digits_b[i] by {
        assert(text_a[i] == digits_a[i]);
        assert(text_b[i] == digits_b[i]);
    }
    assert(digits_a =~= digits_b);
    lemma_decimal_is_injective(a, b);
    assert(text_a.len() == text_b.len());
    assert forall|i: int| 0 <= i < after_a.len() implies after_a[i] == after_b[i] by {
        assert(text_a[digits_a.len() + 1 + i] == after_a[i]);
        assert(text_b[digits_b.len() + 1 + i] == after_b[i]);
    }
    assert(after_a =~= after_b);
}

/// Hexadecimal notation has at least one digit and nothing but digits, and
/// starts with a zero only for zero.
pub proof fn lemma_hexadecimal_notation(n: nat)
    ensures
        hexadecimal(n).len() >= 1,
        forall|i: int|
            0 <= i < hexadecimal(n).len() ==> is_hexadecimal_digit(#[trigger] hexadecimal(n)[i]),
        n > 0 ==> hexadecimal(n)[0] != '0',
    decreases n,
{
    if n >= 16 {
        lemma_hexadecimal_notation(n / 16);
    }
}

} // verus!
