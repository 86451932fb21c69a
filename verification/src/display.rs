//! Display-facing formatting: rendering an elapsed lap time, in
//! milliseconds, as the "mm:ss.t" clock the dashboard shows.

use vstd::prelude::*;
use vstd::string::StringExecFns;

verus! {

/// The decimal digit character for `d` in 0..10.
pub open spec fn spec_digit_char(d: int) -> char {
    if d == 0 {
        '0'
    } else if d == 1 {
        '1'
    } else if d == 2 {
        '2'
    } else if d == 3 {
        '3'
    } else if d == 4 {
        '4'
    } else if d == 5 {
        '5'
    } else if d == 6 {
        '6'
    } else if d == 7 {
        '7'
    } else if d == 8 {
        '8'
    } else {
        '9'
    }
}

/// The clock text for a duration of `ms` milliseconds: two digits of
/// minutes (wrapping at an hour), a colon, two digits of seconds, a dot,
/// and the tenths digit.
pub open spec fn spec_pretty_duration(ms: u64) -> Seq<char> {
    let tenths = ((ms % 1000) / 100) as int;
    let sec = ((ms / 1000) % 60) as int;
    let min = ((ms / 1000 / 60) % 60) as int;
    seq![
        spec_digit_char(min / 10),
        spec_digit_char(min % 10),
        ':',
        spec_digit_char(sec / 10),
        spec_digit_char(sec % 10),
        '.',
        spec_digit_char(tenths),
    ]
}

/// The one-character string for the decimal digit `d`.
fn digit_str(d: u64) -> (r: &'static str)
    requires
        d < 10,
    ensures
        r@ == seq![spec_digit_char(d as int)],
{
    let s: &'static str = match d {
        0 => "0",
        1 => "1",
        2 => "2",
        3 => "3",
        4 => "4",
        5 => "5",
        6 => "6",
        7 => "7",
        8 => "8",
        _ => "9",
    };
    proof {
        reveal_strlit("0");
        reveal_strlit("1");
        reveal_strlit("2");
        reveal_strlit("3");
        reveal_strlit("4");
        reveal_strlit("5");
        reveal_strlit("6");
        reveal_strlit("7");
        reveal_strlit("8");
        reveal_strlit("9");
        assert(s@ =~= seq![spec_digit_char(d as int)]);
    }
    s
}

/// Renders `ms` milliseconds as "mm:ss.t": zero-padded minutes and seconds
/// (minutes wrap at an hour) and the tenths-of-a-second digit.
pub fn pretty_duration(ms: u64) -> (r: String)
    ensures
        r@ == spec_pretty_duration(ms),
{
    let tenths = (ms % 1000) / 100;
    let sec = (ms / 1000) % 60;
    let min = (ms / 1000 / 60) % 60;
    let mut s = String::new();
    s.append(digit_str(min / 10));
    s.append(digit_str(min % 10));
    s.append(":");
    s.append(digit_str(sec / 10));
    s.append(digit_str(sec % 10));
    s.append(".");
    s.append(digit_str(tenths));
    proof {
        reveal_strlit(":");
        reveal_strlit(".");
        assert(s@ =~= spec_pretty_duration(ms));
    }
    s
}

} // verus!
