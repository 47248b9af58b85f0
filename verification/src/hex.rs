//! Lowercase hexadecimal text for addresses.

use vstd::prelude::*;
use vstd::string::*;

verus! {

/// The character that stands for the value `d` of one hexadecimal digit.
pub open spec fn hex_digit(d: int) -> char
    recommends
        0 <= d < 16,
{
    "0123456789abcdef"@[d]
}

/// The digits of `n` in base sixteen, most significant first, without leading
/// zeros; zero is the single digit `0`.
pub open spec fn lower_hex(n: nat) -> Seq<char>
    decreases n,
{
    if n < 16 {
        seq![hex_digit(n as int)]
    } else {
        lower_hex(n / 16).push(hex_digit((n % 16) as int))
    }
}

/// `n` as a hexadecimal literal: the prefix `0x`, then its digits.
pub open spec fn hex_literal(n: nat) -> Seq<char> {
    "0x"@ + lower_hex(n)
}

/// The value that a digit character stands for.
pub open spec fn digit_value(c: char) -> int {
    "0123456789abcdef"@.index_of(c)
}

/// The number that a sequence of digit characters denotes in base sixteen,
/// most significant digit first.
pub open spec fn hex_value(digits: Seq<char>) -> int
    decreases digits.len(),
{
    if digits.len() == 0 {
        0
    } else {
        16 * hex_value(digits.drop_last()) + digit_value(digits.last())
    }
}

/// Each digit character stands for the value it was chosen for.
pub proof fn lemma_digit_value(d: int)
    requires
        0 <= d < 16,
    ensures
        digit_value(hex_digit(d)) == d,
        d != 0 ==> hex_digit(d) != '0',
{
    reveal_strlit("0123456789abcdef");
}

/// Read back as a number, the digits of `n` give `n`.
pub proof fn lemma_lower_hex_value(n: nat)
    ensures
        hex_value(lower_hex(n)) == n,
    decreases n,
{
    if n < 16 {
        lemma_digit_value(n as int);
        assert(lower_hex(n).drop_last() =~= Seq::<char>::empty());
        assert(hex_value(Seq::<char>::empty()) == 0);
    } else {
        lemma_lower_hex_value(n / 16);
        lemma_digit_value((n % 16) as int);
        assert(lower_hex(n).drop_last() =~= lower_hex(n / 16));
    }
}

/// The digits of `n` never start with a needless zero.
pub proof fn lemma_lower_hex_canonical(n: nat)
    ensures
        lower_hex(n).len() >= 1,
        n > 0 ==> lower_hex(n)[0] != '0',
    decreases n,
{
    if n < 16 {
        lemma_digit_value(n as int);
    } else {
        lemma_lower_hex_canonical(n / 16);
    }
}

/// The one-character string for the digit `d`.
fn digit_str(d: usize) -> (s: &'static str)
    requires
        d < 16,
    ensures
        s@ == seq![hex_digit(d as int)],
{
    let digits: &'static str = "0123456789abcdef";
    proof {
        reveal_strlit("0123456789abcdef");
    }
    digits.substring_ascii(d, d + 1)
}

/// Appends the digits of `n` to `out`.
fn push_lower_hex(out: &mut String, n: usize)
    ensures
        final(out)@ == old(out)@ + lower_hex(n as nat),
    decreases n,
{
    if n >= 16 {
        push_lower_hex(out, n / 16);
    }
    out.append(digit_str(n % 16));
}

/// Formats `n` as a hexadecimal literal, such as `0x80200000`.
pub fn to_hex_literal(n: usize) -> (s: String)
    ensures
        s@ == hex_literal(n as nat),
{
    let mut s = String::from_str("0x");
    push_lower_hex(&mut s, n);
    s
}

} // verus!
