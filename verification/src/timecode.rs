//! Timecodes in milliseconds: `HH:MM:SS.mmm` for display and `S.mmm` seconds
//! for command lines.

use vstd::prelude::*;
use crate::decimal::{
    decimal, decimal_string, digit_char, digit_str, digits_value, lemma_digit_zero,
    lemma_zero_padded_three, lemma_decimal_short, lemma_decimal_value, lemma_zero_padded_len,
    lemma_zero_padded_value, zero_padded, zero_padded_string,
};

verus! {

/// `HH:MM:SS.mmm` for a non-negative number of milliseconds; hours grow past
/// two digits when needed.
pub open spec fn clock_text(t: nat) -> Seq<char> {
    zero_padded(t / 3_600_000, 2) + seq![':'] + zero_padded((t % 3_600_000) / 60_000, 2) + seq![':']
        + zero_padded((t % 60_000) / 1_000, 2) + seq!['.'] + zero_padded(t % 1_000, 3)
}

/// The timecode shown for a time of `ms` milliseconds: negative times show
/// as zero.
pub open spec fn timecode(ms: int) -> Seq<char> {
    if ms < 0 {
        clock_text(0)
    } else {
        clock_text(ms as nat)
    }
}

/// Seconds with exactly three decimals, a minus sign in front of negative
/// values: `-1234` milliseconds give `-1.234`.
pub open spec fn seconds_text(ms: int) -> Seq<char> {
    let a: nat = if ms < 0 { (-ms) as nat } else { ms as nat };
    let body = decimal(a / 1000) + seq!['.'] + zero_padded(a % 1000, 3);
    if ms < 0 {
        seq!['-'] + body
    } else {
        body
    }
}

/// Formats a time given in milliseconds as `HH:MM:SS.mmm`.
pub fn format_time(ms: i128) -> (s: String)
    ensures
        s@ == timecode(ms as int),
{
    let t: u128 = if ms < 0 { 0 } else { ms as u128 };
    let mut s = zero_padded_string(t / 3_600_000, 2);
    proof {
        reveal_strlit(":");
        reveal_strlit(".");
    }
    s.append(":");
    let m = zero_padded_string((t % 3_600_000) / 60_000, 2);
    s.append(m.as_str());
    s.append(":");
    let sec = zero_padded_string((t % 60_000) / 1_000, 2);
    s.append(sec.as_str());
    s.append(".");
    let milli = zero_padded_string(t % 1_000, 3);
    s.append(milli.as_str());
    s
}

/// Formats milliseconds as seconds with three decimals, as `{:.3}` prints
/// the same time in seconds.
pub fn format_seconds(ms: i128) -> (s: String)
    ensures
        s@ == seconds_text(ms as int),
{
    let a: u128 = if ms < 0 { (-(ms + 1)) as u128 + 1 } else { ms as u128 };
    proof {
        reveal_strlit("-");
        reveal_strlit(".");
    }
    let mut s = if ms < 0 { String::from_str("-") } else { String::new() };
    let whole = decimal_string(a / 1000);
    s.append(whole.as_str());
    s.append(".");
    let frac = zero_padded_string(a % 1000, 3);
    s.append(frac.as_str());
    s
}

/// Reads a timecode back: the hours are everything before the last ten
/// characters, then come two digits of minutes, two of seconds and three of
/// milliseconds, each after its separator.
pub open spec fn read_clock(s: Seq<char>) -> nat {
    let n = s.len() as int;
    digits_value(s.subrange(0, n - 10)) * 3_600_000 + digits_value(s.subrange(n - 9, n - 7)) * 60_000
        + digits_value(s.subrange(n - 6, n - 4)) * 1_000 + digits_value(s.subrange(n - 3, n))
}

/// A timecode shows the time exactly: reading back the timecode of a
/// non-negative time gives that time, with ':' ':' '.' in their places.
pub proof fn lemma_timecode_round_trip(ms: int)
    requires
        ms >= 0,
    ensures
        timecode(ms).len() >= 12,
        timecode(ms)[timecode(ms).len() - 10] == ':',
        timecode(ms)[timecode(ms).len() - 7] == ':',
        timecode(ms)[timecode(ms).len() - 4] == '.',
        read_clock(timecode(ms)) == ms,
{
    let t = ms as nat;
    let h = t / 3_600_000;
    let m = (t % 3_600_000) / 60_000;
    let sec = (t % 60_000) / 1_000;
    let milli = t % 1_000;
    lemma_decimal_short(m);
    lemma_decimal_short(sec);
    lemma_decimal_short(milli);
    lemma_zero_padded_len(h, 2);
    lemma_zero_padded_len(m, 2);
    lemma_zero_padded_len(sec, 2);
    lemma_zero_padded_len(milli, 3);
    lemma_zero_padded_value(h, 2);
    lemma_zero_padded_value(m, 2);
    lemma_zero_padded_value(sec, 2);
    lemma_zero_padded_value(milli, 3);
    let hs = zero_padded(h, 2);
    let ms_ = zero_padded(m, 2);
    let ss = zero_padded(sec, 2);
    let fs = zero_padded(milli, 3);
    let s = timecode(ms);
    let l = hs.len() as int;
    assert(s =~= hs + seq![':'] + ms_ + seq![':'] + ss + seq!['.'] + fs);
    assert(s.len() == l + 10);
    assert(s.subrange(0, l) =~= hs);
    assert(s.subrange(l + 1, l + 3) =~= ms_);
    assert(s.subrange(l + 4, l + 6) =~= ss);
    assert(s.subrange(l + 7, l + 10) =~= fs);
    assert(h * 3_600_000 + m * 60_000 + sec * 1_000 + milli == t);
}

/// Distinct non-negative times show distinct timecodes.
pub proof fn lemma_timecode_injective(a: int, b: int)
    requires
        a >= 0,
        b >= 0,
        timecode(a) == timecode(b),
    ensures
        a == b,
{
    lemma_timecode_round_trip(a);
    lemma_timecode_round_trip(b);
}

/// Reads seconds with three decimals back as milliseconds: an optional
/// minus sign, whole seconds, a point and three digits.
pub open spec fn read_seconds(s: Seq<char>) -> int {
    let n = s.len() as int;
    if s.len() > 0 && s[0] == '-' {
        -(digits_value(s.subrange(1, n - 4)) * 1000 + digits_value(s.subrange(n - 3, n)))
    } else {
        (digits_value(s.subrange(0, n - 4)) * 1000 + digits_value(s.subrange(n - 3, n))) as int
    }
}

/// Seconds text carries the time exactly: reading it back gives the same
/// number of milliseconds.
pub proof fn lemma_seconds_round_trip(ms: int)
    ensures
        seconds_text(ms).len() >= 5,
        seconds_text(ms)[seconds_text(ms).len() - 4] == '.',
        read_seconds(seconds_text(ms)) == ms,
{
    let a: nat = if ms < 0 { (-ms) as nat } else { ms as nat };
    let whole = decimal(a / 1000);
    let frac = zero_padded(a % 1000, 3);
    lemma_decimal_short(a % 1000);
    lemma_zero_padded_len(a % 1000, 3);
    lemma_zero_padded_value(a % 1000, 3);
    lemma_decimal_value(a / 1000);
    crate::decimal::lemma_decimal_nonempty(a / 1000);
    let body = whole + seq!['.'] + frac;
    let w = whole.len() as int;
    assert(body.len() == w + 4);
    assert(body.subrange(0, w) =~= whole);
    assert(body.subrange(w + 1, w + 4) =~= frac);
    assert((a / 1000) * 1000 + a % 1000 == a);
    if ms < 0 {
        let s = seq!['-'] + body;
        assert(s =~= seconds_text(ms));
        assert(s.subrange(1, w + 1) =~= whole);
        assert(s.subrange(w + 2, w + 5) =~= frac);
        assert(s[0] == '-');
    } else {
        assert(body =~= seconds_text(ms));
        assert(whole[0] != '-') by {
            reveal_with_fuel(decimal, 1);
            lemma_first_digit_not_sign(a / 1000);
        }
    }
}

proof fn lemma_first_digit_not_sign(n: nat)
    ensures
        decimal(n)[0] != '-',
    decreases n,
{
    if n >= 10 {
        lemma_first_digit_not_sign(n / 10);
        crate::decimal::lemma_decimal_nonempty(n / 10);
        assert(decimal(n)[0] == decimal(n / 10)[0]);
    }
}

/// A three-digit fraction without its trailing zeros, keeping at least one
/// digit: `500` becomes `5`, `000` becomes `0`, `050` becomes `05`.
pub open spec fn trim_fraction(f: Seq<char>) -> Seq<char> {
    if f[2] != '0' {
        f
    } else if f[1] != '0' {
        f.take(2)
    } else {
        f.take(1)
    }
}

/// Seconds as the shortest decimal with at least one fractional digit:
/// `-5000` milliseconds give `-5.0`, `83450` give `83.45`.
pub open spec fn json_seconds_text(ms: int) -> Seq<char> {
    let a: nat = if ms < 0 { (-ms) as nat } else { ms as nat };
    let body = decimal(a / 1000) + seq!['.'] + trim_fraction(zero_padded(a % 1000, 3));
    if ms < 0 {
        seq!['-'] + body
    } else {
        body
    }
}

/// Formats milliseconds as seconds in the shortest decimal form that keeps
/// one fractional digit, as a JSON number.
pub fn format_json_seconds(ms: i128) -> (s: String)
    ensures
        s@ == json_seconds_text(ms as int),
{
    let a: u128 = if ms < 0 { (-(ms + 1)) as u128 + 1 } else { ms as u128 };
    proof {
        reveal_strlit("-");
        reveal_strlit(".");
    }
    let mut s = if ms < 0 { String::from_str("-") } else { String::new() };
    let whole = decimal_string(a / 1000);
    s.append(whole.as_str());
    s.append(".");
    let f = a % 1000;
    let ghost fs = zero_padded(f as nat, 3);
    proof {
        lemma_zero_padded_three(f as nat);
        lemma_digit_zero((f % 10) as nat);
        lemma_digit_zero(((f / 10) % 10) as nat);
        assert(fs.take(1) =~= seq![digit_char((f / 100) as nat)]);
        assert(fs.take(2) =~= seq![digit_char((f / 100) as nat), digit_char(((f / 10) % 10) as nat)]);
    }
    s.append(digit_str(f / 100));
    if f % 10 != 0 {
        s.append(digit_str((f / 10) % 10));
        s.append(digit_str(f % 10));
    } else if (f / 10) % 10 != 0 {
        s.append(digit_str((f / 10) % 10));
    }
    s
}

/// The short seconds text is the three-decimal text with trailing zeros
/// left off: putting back at most two zeros gives the three-decimal text,
/// which reads back as the exact time.
pub proof fn lemma_json_seconds_restore(ms: int)
    ensures
        json_seconds_text(ms).len() + 2 >= seconds_text(ms).len() >= json_seconds_text(ms).len(),
        seconds_text(ms) == json_seconds_text(ms) + Seq::new(
            (seconds_text(ms).len() - json_seconds_text(ms).len()) as nat,
            |i: int| '0',
        ),
        read_seconds(json_seconds_text(ms) + Seq::new(
            (seconds_text(ms).len() - json_seconds_text(ms).len()) as nat,
            |i: int| '0',
        )) == ms,
{
    let a: nat = if ms < 0 { (-ms) as nat } else { ms as nat };
    let f = a % 1000;
    lemma_zero_padded_three(f);
    lemma_digit_zero(f % 10);
    lemma_digit_zero((f / 10) % 10);
    let fs = zero_padded(f, 3);
    let k: nat = (3 - trim_fraction(fs).len()) as nat;
    let z = Seq::new(k, |i: int| '0');
    assert(trim_fraction(fs) + z =~= fs);
    let whole = decimal(a / 1000);
    if ms < 0 {
        assert(json_seconds_text(ms) + z =~= seconds_text(ms));
    } else {
        assert(json_seconds_text(ms) + z =~= seconds_text(ms));
    }
    lemma_seconds_round_trip(ms);
}

} // verus!
