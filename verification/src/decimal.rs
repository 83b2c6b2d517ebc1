//! Decimal rendering of natural numbers, as `{}` and `{:0N}` print them.

use vstd::prelude::*;

verus! {

/// The ASCII digit for `d` (taken modulo nothing: only `d < 10` is meaningful).
pub open spec fn digit_char(d: nat) -> char {
    seq!['0', '1', '2', '3', '4', '5', '6', '7', '8', '9'][d as int]
}

/// The shortest decimal representation of `n`, without sign or leading zeros.
pub open spec fn decimal(n: nat) -> Seq<char>
    decreases n,
{
    if n < 10 {
        seq![digit_char(n)]
    } else {
        decimal(n / 10).push(digit_char(n % 10))
    }
}

/// `n` in decimal, left-padded with `'0'` up to at least `width` characters.
pub open spec fn zero_padded(n: nat, width: nat) -> Seq<char> {
    let d = decimal(n);
    if d.len() >= width {
        d
    } else {
        Seq::new((width - d.len()) as nat, |i: int| '0') + d
    }
}

/// A decimal representation is never empty.
pub proof fn lemma_decimal_nonempty(n: nat)
    ensures
        decimal(n).len() >= 1,
    decreases n,
{
    if n >= 10 {
        lemma_decimal_nonempty(n / 10);
    }
}

/// The string holding the single digit `d`.
pub fn digit_str(d: u128) -> (s: &'static str)
    requires
        d < 10,
    ensures
        s@ == seq![digit_char(d as nat)],
{
    proof {
        reveal_strlit("0");
        reveal_strlit("1");
        reveal_strlit("2");
        reveal_strlit("3");
        reveal_strlit("4");
        reveal_strlit("5");
        reveal_strlit("6");
        reveal_strlit("7");
        reveal_strlit("8");
        reveal_strlit("9");
    }
    if d == 0 {
        "0"
    } else if d == 1 {
        "1"
    } else if d == 2 {
        "2"
    } else if d == 3 {
        "3"
    } else if d == 4 {
        "4"
    } else if d == 5 {
        "5"
    } else if d == 6 {
        "6"
    } else if d == 7 {
        "7"
    } else if d == 8 {
        "8"
    } else {
        "9"
    }
}

/// Renders `n` in decimal, as `format!("{}", n)` does.
pub fn decimal_string(n: u128) -> (s: String)
    ensures
        s@ == decimal(n as nat),
    decreases n,
{
    if n < 10 {
        String::from_str(digit_str(n))
    } else {
        let mut s = decimal_string(n / 10);
        s.append(digit_str(n % 10));
        s
    }
}

/// Renders `n` in decimal padded with zeros to `width`, as `format!("{:0w$}", n)` does.
pub fn zero_padded_string(n: u128, width: usize) -> (s: String)
    ensures
        s@ == zero_padded(n as nat, width as nat),
{
    let d = decimal_string(n);
    let len = d.as_str().unicode_len();
    if len >= width {
        d
    } else {
        let mut s = String::new();
        let mut i: usize = 0;
        while i < width - len
            invariant
                i <= width - len,
                s@ == Seq::new(i as nat, |k: int| '0'),
            decreases width - len - i,
        {
            proof {
                reveal_strlit("0");
            }
            s.append("0");
            i = i + 1;
        }
        s.append(d.as_str());
        s
    }
}

/// The value of a decimal digit character (0 for anything else).
pub open spec fn char_digit(c: char) -> nat {
    if c == '1' {
        1
    } else if c == '2' {
        2
    } else if c == '3' {
        3
    } else if c == '4' {
        4
    } else if c == '5' {
        5
    } else if c == '6' {
        6
    } else if c == '7' {
        7
    } else if c == '8' {
        8
    } else if c == '9' {
        9
    } else {
        0
    }
}

/// The number a string of decimal digits stands for.
pub open spec fn digits_value(s: Seq<char>) -> nat
    decreases s.len(),
{
    if s.len() == 0 {
        0
    } else {
        digits_value(s.drop_last()) * 10 + char_digit(s.last())
    }
}

proof fn lemma_digit_round_trip(d: nat)
    requires
        d < 10,
    ensures
        char_digit(digit_char(d)) == d,
{
    if d == 0 {
    } else if d == 1 {
    } else if d == 2 {
    } else if d == 3 {
    } else if d == 4 {
    } else if d == 5 {
    } else if d == 6 {
    } else if d == 7 {
    } else if d == 8 {
    } else {
    }
}

/// Reading back the decimal representation of `n` gives `n`.
pub proof fn lemma_decimal_value(n: nat)
    ensures
        digits_value(decimal(n)) == n,
    decreases n,
{
    if n < 10 {
        lemma_digit_round_trip(n);
        assert(decimal(n).drop_last() =~= Seq::<char>::empty());
        assert(decimal(n).last() == digit_char(n));
        assert(digits_value(decimal(n).drop_last()) == 0);
        assert(digits_value(decimal(n)) == digits_value(decimal(n).drop_last()) * 10 + char_digit(
            decimal(n).last(),
        ));
    } else {
        lemma_decimal_value(n / 10);
        lemma_digit_round_trip(n % 10);
        assert(decimal(n).drop_last() =~= decimal(n / 10));
        assert(decimal(n).last() == digit_char(n % 10));
        assert((n / 10) * 10 + n % 10 == n);
        assert(digits_value(decimal(n)) == digits_value(decimal(n).drop_last()) * 10 + char_digit(
            decimal(n).last(),
        ));
    }
}

proof fn lemma_zeros_value(k: nat, s: Seq<char>)
    ensures
        digits_value(Seq::new(k, |i: int| '0') + s) == digits_value(s),
    decreases s.len(), k,
{
    let z = Seq::new(k, |i: int| '0');
    if s.len() == 0 {
        assert(z + s =~= z);
        if k > 0 {
            assert(z.drop_last() =~= Seq::new((k - 1) as nat, |i: int| '0'));
            lemma_zeros_value((k - 1) as nat, s);
            assert(Seq::new((k - 1) as nat, |i: int| '0') + s =~= Seq::new((k - 1) as nat, |i: int| '0'));
        }
    } else {
        assert((z + s).drop_last() =~= z + s.drop_last());
        lemma_zeros_value(k, s.drop_last());
    }
}

/// Reading back a zero-padded representation of `n` gives `n`.
pub proof fn lemma_zero_padded_value(n: nat, width: nat)
    ensures
        digits_value(zero_padded(n, width)) == n,
{
    lemma_decimal_value(n);
    if decimal(n).len() < width {
        lemma_zeros_value((width - decimal(n).len()) as nat, decimal(n));
    }
}

/// Distinct numbers have distinct zero-padded representations.
pub proof fn lemma_zero_padded_injective(a: nat, b: nat, width: nat)
    requires
        zero_padded(a, width) == zero_padded(b, width),
    ensures
        a == b,
{
    lemma_zero_padded_value(a, width);
    lemma_zero_padded_value(b, width);
}

/// Numbers below 1000 have at most three digits, below 100 at most two.
pub proof fn lemma_decimal_short(n: nat)
    requires
        n < 1000,
    ensures
        n < 100 ==> decimal(n).len() <= 2,
        decimal(n).len() <= 3,
{
    reveal_with_fuel(decimal, 3);
}

/// Padding reaches the width exactly when the number is short enough.
pub proof fn lemma_zero_padded_len(n: nat, width: nat)
    ensures
        decimal(n).len() <= width ==> zero_padded(n, width).len() == width,
        zero_padded(n, width).len() >= width,
        zero_padded(n, width).len() >= decimal(n).len(),
{
}

/// Below 1000, three-digit padding is the hundreds, tens and units digits.
pub proof fn lemma_zero_padded_three(n: nat)
    requires
        n < 1000,
    ensures
        zero_padded(n, 3) == seq![digit_char(n / 100), digit_char((n / 10) % 10), digit_char(n % 10)],
{
    reveal_with_fuel(decimal, 3);
    if n < 10 {
        assert(zero_padded(n, 3) =~= seq!['0', '0', digit_char(n)]);
    } else if n < 100 {
        assert(decimal(n) =~= seq![digit_char(n / 10), digit_char(n % 10)]);
        assert(zero_padded(n, 3) =~= seq!['0', digit_char(n / 10), digit_char(n % 10)]);
    } else {
        assert(decimal(n / 10) =~= seq![digit_char(n / 100), digit_char((n / 10) % 10)]);
        assert(decimal(n) =~= seq![digit_char(n / 100), digit_char((n / 10) % 10), digit_char(n % 10)]);
    }
}

/// Only the digit zero is written `0`.
pub proof fn lemma_digit_zero(d: nat)
    requires
        d < 10,
    ensures
        (digit_char(d) == '0') == (d == 0),
{
}

} // verus!
