//! Small presentation helpers.
//!
//! Durations are shown as `HH:MM:SS`, each field zero-padded to two
//! digits and the hour field growing as needed. The decimal rendering is
//! specified digit by digit and the executable code is proved to emit
//! exactly those characters.

use vstd::prelude::*;

verus! {

/// The character of one decimal digit.
pub open spec fn spec_digit_char(d: nat) -> char {
    if d == 0 {
        '0'
    } else if d == 1 {
        '1'
    } else if d == 2 {
        '2'
    } else if d == 3 {
        '3'
    } else if d == 4 {
        '4'
    } else if d == 5 {
        '5'
    } else if d == 6 {
        '6'
    } else if d == 7 {
        '7'
    } else if d == 8 {
        '8'
    } else {
        '9'
    }
}

/// The decimal rendering of `n`, most significant digit first, with no
/// leading zeros except for `n == 0` itself.
pub open spec fn spec_dec_rep(n: nat) -> Seq<char>
    decreases n,
{
    if n < 10 {
        seq![spec_digit_char(n)]
    } else {
        spec_dec_rep(n / 10) + seq![spec_digit_char(n % 10)]
    }
}

/// The decimal rendering of `n` padded with a zero to at least two
/// characters.
pub open spec fn spec_pad2(n: nat) -> Seq<char> {
    if n < 10 {
        seq!['0'] + spec_dec_rep(n)
    } else {
        spec_dec_rep(n)
    }
}

/// `HH:MM:SS` for a second count: hours, minutes within the hour and
/// seconds within the minute, each zero-padded to two characters.
pub open spec fn spec_format_duration(total_secs: nat) -> Seq<char> {
    spec_pad2(total_secs / 3600) + seq![':'] + spec_pad2((total_secs % 3600) / 60) + seq![':']
        + spec_pad2(total_secs % 60)
}

/// The one-character string of a decimal digit.
fn digit_str(d: u64) -> (r: &'static str)
    requires
        d < 10,
    ensures
        r@ =~= seq![spec_digit_char(d as nat)],
{
    if d == 0 {
        proof {
            reveal_strlit("0");
        }
        "0"
    } else if d == 1 {
        proof {
            reveal_strlit("1");
        }
        "1"
    } else if d == 2 {
        proof {
            reveal_strlit("2");
        }
        "2"
    } else if d == 3 {
        proof {
            reveal_strlit("3");
        }
        "3"
    } else if d == 4 {
        proof {
            reveal_strlit("4");
        }
        "4"
    } else if d == 5 {
        proof {
            reveal_strlit("5");
        }
        "5"
    } else if d == 6 {
        proof {
            reveal_strlit("6");
        }
        "6"
    } else if d == 7 {
        proof {
            reveal_strlit("7");
        }
        "7"
    } else if d == 8 {
        proof {
            reveal_strlit("8");
        }
        "8"
    } else {
        proof {
            reveal_strlit("9");
        }
        "9"
    }
}

/// Render `n` in decimal.
fn u64_to_decimal(n: u64) -> (r: String)
    ensures
        r@ == spec_dec_rep(n as nat),
    decreases n,
{
    if n < 10 {
        String::from_str(digit_str(n))
    } else {
        let front = u64_to_decimal(n / 10);
        front.concat(digit_str(n % 10))
    }
}

/// Render `n` in decimal, zero-padded to at least two characters.
fn pad2(n: u64) -> (r: String)
    ensures
        r@ == spec_pad2(n as nat),
{
    if n < 10 {
        proof {
            reveal_strlit("0");
        }
        let mut r = String::from_str("0");
        r.append(digit_str(n));
        r
    } else {
        u64_to_decimal(n)
    }
}

/// Format a second count as `HH:MM:SS`.
pub fn format_duration(total_secs: u64) -> (r: String)
    ensures
        r@ == spec_format_duration(total_secs as nat),
{
    proof {
        reveal_strlit(":");
    }
    let hours = total_secs / 3600;
    let minutes = (total_secs % 3600) / 60;
    let seconds = total_secs % 60;
    let mut out = pad2(hours);
    out.append(":");
    let m = pad2(minutes);
    out.append(m.as_str());
    out.append(":");
    let s = pad2(seconds);
    out.append(s.as_str());
    proof {
        assert(out@ =~= spec_format_duration(total_secs as nat));
    }
    out
}

} // verus!
