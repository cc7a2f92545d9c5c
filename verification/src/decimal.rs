//! Port numbers written in decimal: what text denotes a port, and the text of a port.

use vstd::prelude::*;
use vstd::std_specs::iter::IteratorSpec;

verus! {

/// Whether `c` is one of the ten ASCII digits.
pub open spec fn is_digit(c: char) -> bool {
    '0' <= c <= '9'
}

/// The number that the digit `c` stands for.
pub open spec fn digit_value(c: char) -> nat
    recommends
        is_digit(c),
{
    (c as int - '0' as int) as nat
}

/// Whether `digits` is made of ASCII digits only.
pub open spec fn all_digits(digits: Seq<char>) -> bool {
    forall|i: int| 0 <= i < digits.len() ==> is_digit(#[trigger] digits[i])
}

/// The number that a run of digits denotes in base ten, the empty run denoting zero.
pub open spec fn decimal_value(digits: Seq<char>) -> nat
    decreases digits.len(),
{
    if digits.len() == 0 {
        0
    } else {
        10 * decimal_value(digits.drop_last()) + digit_value(digits.last())
    }
}

/// What is left of `text` once one leading plus sign, if there is one, is taken off.
pub open spec fn unsigned_part(text: Seq<char>) -> Seq<char> {
    if text.len() > 0 && text[0] == '+' {
        text.subrange(1, text.len() as int)
    } else {
        text
    }
}

/// The port that `text` denotes: an optional plus sign, then at least one digit and nothing
/// but digits, which together denote a number that fits in sixteen bits. Any other text
/// denotes no port.
pub open spec fn port_of_text(text: Seq<char>) -> Option<u16> {
    let digits = unsigned_part(text);
    if digits.len() > 0 && all_digits(digits) && decimal_value(digits) <= u16::MAX {
        Some(decimal_value(digits) as u16)
    } else {
        None
    }
}

/// A run of digits denotes at least what any of its prefixes denotes.
proof fn lemma_prefix_value_is_lower(digits: Seq<char>, n: int)
    requires
        0 <= n <= digits.len(),
    ensures
        decimal_value(digits.subrange(0, n)) <= decimal_value(digits),
    decreases digits.len() - n,
{
    if n == digits.len() {
        assert(digits.subrange(0, n) =~= digits);
    } else {
        lemma_prefix_value_is_lower(digits, n + 1);
        assert(digits.subrange(0, n + 1).drop_last() =~= digits.subrange(0, n));
    }
}

/// Reads a port from `text`.
pub fn parse_port(text: &str) -> (port: Option<u16>)
    ensures
        port == port_of_text(text@),
{
    let ghost digits = unsigned_part(text@);
    let mut chars = text.chars();
    let mut value: u32 = 0;
    let mut signed: bool = false;
    let mut any_digit: bool = false;
    let ghost mut read: int = 0;
    loop
        invariant
            digits == unsigned_part(text@),
            0 <= read <= digits.len(),
            signed ==> digits.len() + 1 == text@.len(),
            any_digit && !signed ==> digits == text@,
            any_digit <==> read > 0,
            chars.remaining() == if signed || any_digit {
                digits.subrange(read, digits.len() as int)
            } else {
                text@
            },
            all_digits(digits.subrange(0, read)),
            value == decimal_value(digits.subrange(0, read)),
            value <= u16::MAX,
        decreases text@.len() - read - if signed { 1int } else { 0int },
    {
        match chars.next() {
            None => {
                assert(digits.subrange(0, read) =~= digits);
                return if any_digit { Some(value as u16) } else { None };
            },
            Some(c) => {
                if c == '+' && !signed && !any_digit {
                    signed = true;
                } else if '0' <= c && c <= '9' {
                    let digit: u32 = c as u32 - '0' as u32;
                    value = 10 * value + digit;
                    any_digit = true;
                    proof {
                        assert(digits.subrange(0, read + 1).drop_last() =~= digits.subrange(
                            0,
                            read,
                        ));
                        lemma_prefix_value_is_lower(digits, read + 1);
                        read = read + 1;
                    }
                    if value > 65535 {
                        return None;
                    }
                } else {
                    return None;
                }
            },
        }
    }
}

/// The digit that stands for `d`.
pub open spec fn digit_char(d: nat) -> char
    recommends
        d < 10,
{
    ('0' as int + d) as char
}

/// The digits of `n` in base ten, the first of them a zero only where `n` is zero.
pub open spec fn decimal_digits(n: nat) -> Seq<char>
    decreases n,
{
    if n < 10 {
        seq![digit_char(n)]
    } else {
        decimal_digits(n / 10).push(digit_char(n % 10))
    }
}

/// The text of a single digit.
fn digit_text(d: u16) -> (text: &'static str)
    requires
        d < 10,
    ensures
        text@ == seq![digit_char(d as nat)],
{
    proof {
        reveal_strlit("0");
        reveal_strlit("1");
        reveal_strlit("2");
        reveal_strlit("3");
        reveal_strlit("4");
        reveal_strlit("5");
        reveal_strlit("6");
        reveal_strlit("7");
        reveal_strlit("8");
        reveal_strlit("9");
    }
    let text = match d {
        0 => "0",
        1 => "1",
        2 => "2",
        3 => "3",
        4 => "4",
        5 => "5",
        6 => "6",
        7 => "7",
        8 => "8",
        _ => "9",
    };
    text
}

/// Writes `n` in decimal at the end of `out`.
pub fn append_decimal(out: &mut String, n: u16)
    ensures
        final(out)@ == old(out)@ + decimal_digits(n as nat),
    decreases n,
{
    if n >= 10 {
        append_decimal(out, n / 10);
    }
    out.append(digit_text(n % 10));
}

/// The text of `port`: its decimal digits, without a sign or leading zeros.
pub fn port_text(port: u16) -> (text: String)
    ensures
        text@ == decimal_digits(port as nat),
{
    let mut text = String::new();
    append_decimal(&mut text, port);
    text
}

/// The digits of a number are digits, at least one of them, and denote that number.
pub proof fn lemma_digits_denote(n: nat)
    ensures
        decimal_digits(n).len() > 0,
        all_digits(decimal_digits(n)),
        decimal_value(decimal_digits(n)) == n,
    decreases n,
{
    let digits = decimal_digits(n);
    if n < 10 {
        assert(decimal_value(digits.drop_last()) == 0);
    } else {
        lemma_digits_denote(n / 10);
        assert(digits.drop_last() =~= decimal_digits(n / 10));
    }
}

/// The digits of a number begin with a zero only where the number is zero.
pub proof fn lemma_digits_have_no_leading_zero(n: nat)
    ensures
        decimal_digits(n)[0] == '0' <==> n == 0,
    decreases n,
{
    if n >= 10 {
        lemma_digits_have_no_leading_zero(n / 10);
        lemma_digits_denote(n / 10);
    }
}

/// Reading the text of a port gives that port back.
pub proof fn lemma_port_text_reads_back(port: u16)
    ensures
        port_of_text(decimal_digits(port as nat)) == Some(port),
{
    lemma_digits_denote(port as nat);
}

} // verus!
