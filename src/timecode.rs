//! Rendering of millisecond offsets as the timestamps and durations that the
//! transcoding tool reads.
use vstd::prelude::*;

verus! {

/// The character of a decimal digit.
pub open spec fn digit_char(d: nat) -> char {
    if d == 0 { '0' }
    else if d == 1 { '1' }
    else if d == 2 { '2' }
    else if d == 3 { '3' }
    else if d == 4 { '4' }
    else if d == 5 { '5' }
    else if d == 6 { '6' }
    else if d == 7 { '7' }
    else if d == 8 { '8' }
    else { '9' }
}

/// The decimal digits of `n`, without leading zeros ("0" for zero).
pub open spec fn digits(n: nat) -> Seq<char>
    decreases n,
{
    if n < 10 {
        seq![digit_char(n)]
    } else {
        digits(n / 10).push(digit_char(n % 10))
    }
}

/// `n` in decimal, padded with zeros to at least two digits.
pub open spec fn pad2(n: nat) -> Seq<char> {
    if n < 10 { seq!['0'] + digits(n) } else { digits(n) }
}

/// `n` in decimal, padded with zeros to at least three digits.
pub open spec fn pad3(n: nat) -> Seq<char> {
    if n < 10 {
        seq!['0', '0'] + digits(n)
    } else if n < 100 {
        seq!['0'] + digits(n)
    } else {
        digits(n)
    }
}

/// `HH:MM:SS.mmm` for an offset of `ms` milliseconds; the hours are not bounded.
pub open spec fn timestamp(ms: nat) -> Seq<char> {
    pad2(ms / 3_600_000) + seq![':'] + pad2((ms / 60_000) % 60) + seq![':']
        + pad2((ms / 1000) % 60) + seq!['.'] + pad3(ms % 1000)
}

/// The fractional part of a second (`f` thousandths, `0 < f < 1000`) without
/// trailing zeros.
pub open spec fn fraction(f: nat) -> Seq<char> {
    if f % 100 == 0 {
        digits(f / 100)
    } else if f % 10 == 0 {
        pad2(f / 10)
    } else {
        pad3(f)
    }
}

/// `ms` milliseconds as a plain decimal number of seconds, in its shortest
/// form: `5`, `2.5`, `0.125`.
pub open spec fn seconds_text(ms: nat) -> Seq<char> {
    if ms % 1000 == 0 {
        digits(ms / 1000)
    } else {
        digits(ms / 1000) + seq!['.'] + fraction(ms % 1000)
    }
}

fn digit_str(d: u64) -> (r: &'static str)
    requires
        d < 10,
    ensures
        r@ == seq![digit_char(d as nat)],
{
    proof {
        reveal_strlit("0");
        reveal_strlit("1");
        reveal_strlit("2");
        reveal_strlit("3");
        reveal_strlit("4");
        reveal_strlit("5");
        reveal_strlit("6");
        reveal_strlit("7");
        reveal_strlit("8");
        reveal_strlit("9");
    }
    if d == 0 { "0" }
    else if d == 1 { "1" }
    else if d == 2 { "2" }
    else if d == 3 { "3" }
    else if d == 4 { "4" }
    else if d == 5 { "5" }
    else if d == 6 { "6" }
    else if d == 7 { "7" }
    else if d == 8 { "8" }
    else {
        assert(seq![digit_char(d as nat)] =~= "9"@);
        "9"
    }
}

/// Appends the decimal digits of `n` to `out`.
pub fn push_decimal(out: &mut String, n: u64)
    ensures
        final(out)@ == old(out)@ + digits(n as nat),
    decreases n,
{
    if n >= 10 {
        push_decimal(out, n / 10);
    }
    out.append(digit_str(n % 10));
    proof {
        if n >= 10 {
            assert(digits(n as nat) == digits((n / 10) as nat).push(digit_char((n % 10) as nat)));
        }
    }
    assert(final(out)@ =~= old(out)@ + digits(n as nat));
}

/// The decimal digits of `n`.
pub fn decimal(n: u64) -> (r: String)
    ensures
        r@ == digits(n as nat),
{
    let mut s = String::new();
    push_decimal(&mut s, n);
    assert(s@ =~= digits(n as nat));
    s
}

fn push_pad2(out: &mut String, n: u64)
    ensures
        final(out)@ == old(out)@ + pad2(n as nat),
{
    proof { reveal_strlit("0"); }
    if n < 10 {
        out.append("0");
    }
    push_decimal(out, n);
    assert(final(out)@ =~= old(out)@ + pad2(n as nat));
}

fn push_pad3(out: &mut String, n: u64)
    ensures
        final(out)@ == old(out)@ + pad3(n as nat),
{
    proof {
        reveal_strlit("0");
        reveal_strlit("00");
    }
    if n < 10 {
        out.append("00");
    } else if n < 100 {
        out.append("0");
    }
    push_decimal(out, n);
    assert(final(out)@ =~= old(out)@ + pad3(n as nat));
}

/// Renders an offset of `ms` milliseconds as `HH:MM:SS.mmm`.
pub fn format_time(ms: u64) -> (r: String)
    ensures
        r@ == timestamp(ms as nat),
{
    proof {
        reveal_strlit(":");
        reveal_strlit(".");
    }
    let mut s = String::new();
    push_pad2(&mut s, ms / 3_600_000);
    s.append(":");
    push_pad2(&mut s, (ms / 60_000) % 60);
    s.append(":");
    push_pad2(&mut s, (ms / 1000) % 60);
    s.append(".");
    push_pad3(&mut s, ms % 1000);
    assert(s@ =~= timestamp(ms as nat));
    s
}

/// Renders a length of `ms` milliseconds as a plain decimal number of seconds.
pub fn format_seconds(ms: u64) -> (r: String)
    ensures
        r@ == seconds_text(ms as nat),
{
    proof { reveal_strlit("."); }
    let mut s = String::new();
    push_decimal(&mut s, ms / 1000);
    let f = ms % 1000;
    if f != 0 {
        s.append(".");
        if f % 100 == 0 {
            push_decimal(&mut s, f / 100);
        } else if f % 10 == 0 {
            push_pad2(&mut s, f / 10);
        } else {
            push_pad3(&mut s, f);
        }
    }
    assert(s@ =~= seconds_text(ms as nat));
    s
}

} // verus!
