//! Canonical `MM:SS` rendering of a duration.
//!
//! [`format_duration`] turns a duration in milliseconds into the text every
//! collaborator displays: whole minutes and seconds, each zero-padded to two
//! digits, separated by a colon, with no upper bound on the minutes.

use vstd::prelude::*;

verus! {

/// The decimal digit character for `d`.
pub open spec fn spec_digit_char(d: int) -> char {
    if d == 0 {
        '0'
    } else if d == 1 {
        '1'
    } else if d == 2 {
        '2'
    } else if d == 3 {
        '3'
    } else if d == 4 {
        '4'
    } else if d == 5 {
        '5'
    } else if d == 6 {
        '6'
    } else if d == 7 {
        '7'
    } else if d == 8 {
        '8'
    } else {
        '9'
    }
}

/// The decimal digits of `n`, most significant first, no leading zeros
/// (a single `'0'` for zero).
pub open spec fn spec_dec_digits(n: int) -> Seq<char>
    decreases n,
{
    if n < 10 {
        seq![spec_digit_char(n)]
    } else {
        spec_dec_digits(n / 10).push(spec_digit_char(n % 10))
    }
}

/// The decimal digits of `n`, zero-padded on the left to at least two.
pub open spec fn spec_padded2(n: int) -> Seq<char> {
    if n < 10 {
        seq!['0', spec_digit_char(n)]
    } else {
        spec_dec_digits(n)
    }
}

/// The canonical `MM:SS` text for a duration of `ms` milliseconds.
pub open spec fn spec_mmss(ms: int) -> Seq<char> {
    spec_padded2((ms / 1000) / 60) + seq![':'] + spec_padded2((ms / 1000) % 60)
}

/// The one-character string for the digit `d`.
fn digit_str(d: u64) -> (s: &'static str)
    requires
        d < 10,
    ensures
        s@ == seq![spec_digit_char(d as int)],
{
    proof {
        reveal_strlit("0");
        reveal_strlit("1");
        reveal_strlit("2");
        reveal_strlit("3");
        reveal_strlit("4");
        reveal_strlit("5");
        reveal_strlit("6");
        reveal_strlit("7");
        reveal_strlit("8");
        reveal_strlit("9");
    }
    let s: &'static str = match d {
        0 => "0",
        1 => "1",
        2 => "2",
        3 => "3",
        4 => "4",
        5 => "5",
        6 => "6",
        7 => "7",
        8 => "8",
        _ => "9",
    };
    proof {
        assert(s@ =~= seq![spec_digit_char(d as int)]);
    }
    s
}

/// The decimal digits of `n`, most significant first.
fn dec_str(n: u64) -> (s: String)
    ensures
        s@ == spec_dec_digits(n as int),
    decreases n,
{
    if n < 10 {
        String::from_str(digit_str(n))
    } else {
        let mut s = dec_str(n / 10);
        s.append(digit_str(n % 10));
        proof {
            assert(s@ =~= spec_dec_digits(n as int));
        }
        s
    }
}

/// The decimal digits of `n`, zero-padded on the left to at least two.
fn padded2_str(n: u64) -> (s: String)
    ensures
        s@ == spec_padded2(n as int),
{
    if n < 10 {
        let mut s = String::from_str("0");
        s.append(digit_str(n));
        proof {
            reveal_strlit("0");
            assert(s@ =~= spec_padded2(n as int));
        }
        s
    } else {
        dec_str(n)
    }
}

/// Render a duration of `duration_ms` milliseconds as zero-padded
/// minutes and seconds, `MM:SS`.
pub fn format_duration(duration_ms: u64) -> (s: String)
    ensures
        s@ == spec_mmss(duration_ms as int),
{
    let total_seconds = duration_ms / 1000;
    let minutes = total_seconds / 60;
    let seconds = total_seconds % 60;
    let mut s = padded2_str(minutes);
    s.append(":");
    let seconds_str = padded2_str(seconds);
    s.append(seconds_str.as_str());
    proof {
        reveal_strlit(":");
        assert(s@ =~= spec_mmss(duration_ms as int));
    }
    s
}

} // verus!
