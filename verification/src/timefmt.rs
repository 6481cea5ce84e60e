//! Decimal rendering of unsigned numbers and the `H:MM:SS` display of a
//! playback position.

use vstd::prelude::*;
use vstd::string::StringExecFns;

verus! {

/// The single decimal digit `d` (which must be below ten) as text.
pub open spec fn digit_str(d: int) -> Seq<char> {
    if d == 0 {
        "0"@
    } else if d == 1 {
        "1"@
    } else if d == 2 {
        "2"@
    } else if d == 3 {
        "3"@
    } else if d == 4 {
        "4"@
    } else if d == 5 {
        "5"@
    } else if d == 6 {
        "6"@
    } else if d == 7 {
        "7"@
    } else if d == 8 {
        "8"@
    } else {
        "9"@
    }
}

/// The decimal representation of `n`, most significant digit first.
pub open spec fn dec_rep(n: int) -> Seq<char>
    decreases n,
{
    if n < 10 {
        digit_str(n)
    } else {
        dec_rep(n / 10) + digit_str(n % 10)
    }
}

/// The decimal representation of `n`, padded on the left to two digits.
pub open spec fn dec_rep2(n: int) -> Seq<char> {
    if n < 10 {
        "0"@ + digit_str(n)
    } else {
        dec_rep(n)
    }
}

/// The display text of a playback position of `seconds` seconds: hours only
/// when there is at least one, minutes and seconds padded to two digits, and
/// a fixed phrase for a position of zero.
pub open spec fn spec_format_time(seconds: u64) -> Seq<char> {
    if seconds == 0 {
        "Not started"@
    } else {
        let h = seconds as int / 3600;
        let m = (seconds as int % 3600) / 60;
        let s = seconds as int % 60;
        if h > 0 {
            dec_rep(h) + ":"@ + dec_rep2(m) + ":"@ + dec_rep2(s)
        } else {
            dec_rep(m) + ":"@ + dec_rep2(s)
        }
    }
}

fn append_digit(out: &mut String, d: u64)
    requires
        d < 10,
    ensures
        final(out)@ == old(out)@ + digit_str(d as int),
{
    let t: &str = if d == 0 {
        "0"
    } else if d == 1 {
        "1"
    } else if d == 2 {
        "2"
    } else if d == 3 {
        "3"
    } else if d == 4 {
        "4"
    } else if d == 5 {
        "5"
    } else if d == 6 {
        "6"
    } else if d == 7 {
        "7"
    } else if d == 8 {
        "8"
    } else {
        "9"
    };
    out.append(t);
}

/// Append the decimal representation of `n` to `out`.
pub fn append_decimal(out: &mut String, n: u64)
    ensures
        final(out)@ == old(out)@ + dec_rep(n as int),
    decreases n,
{
    if n < 10 {
        append_digit(out, n);
    } else {
        append_decimal(out, n / 10);
        append_digit(out, n % 10);
    }
}

/// The decimal representation of `n` as a fresh string.
pub fn decimal_string(n: u64) -> (r: String)
    ensures
        r@ == dec_rep(n as int),
{
    let mut out = String::new();
    append_decimal(&mut out, n);
    proof {
        assert(out@ == Seq::<char>::empty() + dec_rep(n as int));
        assert(out@ =~= dec_rep(n as int));
    }
    out
}

fn append_decimal2(out: &mut String, n: u64)
    ensures
        final(out)@ == old(out)@ + dec_rep2(n as int),
{
    if n < 10 {
        out.append("0");
        append_digit(out, n);
        proof {
            assert(out@ =~= old(out)@ + dec_rep2(n as int));
        }
    } else {
        append_decimal(out, n);
    }
}

/// Render a playback position in seconds as `H:MM:SS` (or `M:SS` below an
/// hour), with zero shown as a fixed "not started" phrase.
pub fn format_time(seconds: u64) -> (r: String)
    ensures
        r@ == spec_format_time(seconds),
{
    if seconds == 0 {
        return String::from_str("Not started");
    }
    let hours = seconds / 3600;
    let minutes = (seconds % 3600) / 60;
    let secs = seconds % 60;
    let mut out = String::new();
    if hours > 0 {
        append_decimal(&mut out, hours);
        out.append(":");
        append_decimal2(&mut out, minutes);
        out.append(":");
        append_decimal2(&mut out, secs);
    } else {
        append_decimal(&mut out, minutes);
        out.append(":");
        append_decimal2(&mut out, secs);
    }
    proof {
        assert(out@ =~= spec_format_time(seconds));
    }
    out
}

} // verus!
