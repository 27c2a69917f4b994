//! Decimal digits: reading a number from them and writing one with them.

use vstd::prelude::*;

verus! {

/// One of the ten ASCII digits.
pub open spec fn is_digit(c: char) -> bool {
    '0' <= c && c <= '9'
}

/// The number a digit stands for.
pub open spec fn digit_value(c: char) -> int {
    c as int - '0' as int
}

/// The digit that stands for `d`, for `d` from 0 to 9.
pub open spec fn digit_char(d: int) -> char {
    (d + '0' as int) as char
}

/// Every character of `s` is a digit.
pub open spec fn all_digits(s: Seq<char>) -> bool {
    forall|i: int| 0 <= i < s.len() ==> is_digit(#[trigger] s[i])
}

/// The number that a run of digits denotes in base ten; 0 for the empty run.
pub open spec fn decimal_value(s: Seq<char>) -> int
    decreases s.len(),
{
    if s.len() == 0 {
        0
    } else {
        10 * decimal_value(s.drop_last()) + digit_value(s.last())
    }
}

/// `n` in base ten, with zeros in front where it has fewer than `width` digits.
/// A number with more digits than `width` keeps them all.
pub open spec fn zero_padded(n: nat, width: nat) -> Seq<char>
    decreases n, width,
{
    if n < 10 && width <= 1 {
        seq![digit_char(n as int)]
    } else {
        zero_padded(
            n / 10,
            if width > 0 {
                (width - 1) as nat
            } else {
                0
            },
        ) + seq![digit_char((n % 10) as int)]
    }
}

/// `10^k`.
pub open spec fn pow10(k: nat) -> nat
    decreases k,
{
    if k == 0 {
        1
    } else {
        10 * pow10((k - 1) as nat)
    }
}

/// A run of `k` digits denotes a number from 0 up to, not including, `10^k`.
pub proof fn lemma_decimal_value_bound(s: Seq<char>)
    requires
        all_digits(s),
    ensures
        0 <= decimal_value(s) < pow10(s.len()),
    decreases s.len(),
{
    if s.len() > 0 {
        lemma_decimal_value_bound(s.drop_last());
    }
}

/// A number that fits `width` digits is written with exactly that many, and
/// read back from them it is the same number.
pub proof fn lemma_zero_padded_reads_back(n: nat, width: nat)
    requires
        width >= 1,
        n < pow10(width),
    ensures
        zero_padded(n, width).len() == width,
        all_digits(zero_padded(n, width)),
        decimal_value(zero_padded(n, width)) == n,
    decreases n, width,
{
    let s = zero_padded(n, width);
    if n < 10 && width <= 1 {
        assert(decimal_value(s.drop_last()) == 0);
    } else {
        reveal_with_fuel(pow10, 2);
        let rest = zero_padded(n / 10, (width - 1) as nat);
        lemma_zero_padded_reads_back(n / 10, (width - 1) as nat);
        assert(s.drop_last() =~= rest);
    }
}

/// The one-character text of a digit.
fn digit_text(d: u32) -> (r: &'static str)
    requires
        d < 10,
    ensures
        r@ == seq![digit_char(d as int)],
{
    proof {
        reveal_strlit("0");
        reveal_strlit("1");
        reveal_strlit("2");
        reveal_strlit("3");
        reveal_strlit("4");
        reveal_strlit("5");
        reveal_strlit("6");
        reveal_strlit("7");
        reveal_strlit("8");
        reveal_strlit("9");
    }
    let r = match d {
        0 => "0",
        1 => "1",
        2 => "2",
        3 => "3",
        4 => "4",
        5 => "5",
        6 => "6",
        7 => "7",
        8 => "8",
        _ => "9",
    };
    assert(r@ =~= seq![digit_char(d as int)]);
    r
}

/// Writes `n` in base ten, zero-padded to at least `width` digits.
pub fn zero_padded_text(n: u32, width: u32) -> (r: String)
    ensures
        r@ == zero_padded(n as nat, width as nat),
    decreases n, width,
{
    if n < 10 && width <= 1 {
        String::from_str(digit_text(n))
    } else {
        let rest: u32 = if width > 0 { width - 1 } else { 0 };
        let mut s = zero_padded_text(n / 10, rest);
        s.append(digit_text(n % 10));
        s
    }
}

/// The value of the digit `c`, or nothing where `c` is no digit.
pub fn digit_of(c: char) -> (r: Option<u32>)
    ensures
        r is Some <==> is_digit(c),
        r matches Some(d) ==> d == digit_value(c) && d < 10,
{
    if '0' <= c && c <= '9' {
        Some(c as u32 - '0' as u32)
    } else {
        None
    }
}

} // verus!
