//! Session time in whole milliseconds, and the decimal rendering used by
//! the on-screen timer readout.

use vstd::prelude::*;

verus! {

/// Number of milliseconds in one in-game second.
pub const MILLIS_PER_SECOND: u64 = 1000;

/// The whole seconds that `millis` milliseconds span, rounded down.
pub open spec fn spec_whole_seconds(millis: int) -> int {
    millis / 1000
}

/// Whole seconds of a time given in milliseconds, rounded down.
pub fn whole_seconds(millis: u64) -> (seconds: u64)
    ensures
        seconds == spec_whole_seconds(millis as int),
{
    millis / MILLIS_PER_SECOND
}

/// The decimal digit character for `d`, which must lie in `0..10`.
pub open spec fn digit_char(d: int) -> char {
    if d == 0 {
        '0'
    } else if d == 1 {
        '1'
    } else if d == 2 {
        '2'
    } else if d == 3 {
        '3'
    } else if d == 4 {
        '4'
    } else if d == 5 {
        '5'
    } else if d == 6 {
        '6'
    } else if d == 7 {
        '7'
    } else if d == 8 {
        '8'
    } else {
        '9'
    }
}

/// The usual decimal rendering of a non-negative integer: most significant
/// digit first, no leading zeros except for zero itself.
pub open spec fn decimal_digits(n: int) -> Seq<char>
    decreases n,
{
    if n < 10 {
        seq![digit_char(n)]
    } else {
        decimal_digits(n / 10).push(digit_char(n % 10))
    }
}

fn digit_str(d: u64) -> (s: &'static str)
    requires
        d < 10,
    ensures
        s@ =~= seq![digit_char(d as int)],
{
    proof {
        reveal_strlit("0");
        reveal_strlit("1");
        reveal_strlit("2");
        reveal_strlit("3");
        reveal_strlit("4");
        reveal_strlit("5");
        reveal_strlit("6");
        reveal_strlit("7");
        reveal_strlit("8");
        reveal_strlit("9");
    }
    match d {
        0 => "0",
        1 => "1",
        2 => "2",
        3 => "3",
        4 => "4",
        5 => "5",
        6 => "6",
        7 => "7",
        8 => "8",
        _ => "9",
    }
}

/// A time in milliseconds rendered as decimal seconds: the whole seconds,
/// then a fractional part only where one exists, with trailing zeros
/// dropped (`5000` is `5`, `5500` is `5.5`, `5050` is `5.05`).
pub open spec fn seconds_display(millis: int) -> Seq<char> {
    let whole = decimal_digits(millis / 1000);
    let frac = millis % 1000;
    if frac == 0 {
        whole
    } else if frac % 100 == 0 {
        whole + seq!['.', digit_char(frac / 100)]
    } else if frac % 10 == 0 {
        whole + seq!['.', digit_char(frac / 100), digit_char((frac / 10) % 10)]
    } else {
        whole + seq![
            '.',
            digit_char(frac / 100),
            digit_char((frac / 10) % 10),
            digit_char(frac % 10),
        ]
    }
}

/// Renders a time in milliseconds as decimal seconds.
pub fn format_seconds(millis: u64) -> (s: String)
    ensures
        s@ == seconds_display(millis as int),
{
    let mut s = u64_to_decimal(millis / MILLIS_PER_SECOND);
    let frac = millis % MILLIS_PER_SECOND;
    if frac == 0 {
        proof {
            assert(s@ =~= seconds_display(millis as int));
        }
        s
    } else {
        proof {
            reveal_strlit(".");
        }
        s.append(".");
        s.append(digit_str(frac / 100));
        if frac % 100 == 0 {
            proof {
                assert(s@ =~= seconds_display(millis as int));
            }
            s
        } else {
            s.append(digit_str((frac / 10) % 10));
            if frac % 10 == 0 {
                proof {
                    assert(s@ =~= seconds_display(millis as int));
                }
                s
            } else {
                s.append(digit_str(frac % 10));
                proof {
                    assert(s@ =~= seconds_display(millis as int));
                }
                s
            }
        }
    }
}

/// Renders `n` in decimal.
pub fn u64_to_decimal(n: u64) -> (s: String)
    ensures
        s@ == decimal_digits(n as int),
    decreases n,
{
    if n < 10 {
        let s = digit_str(n).to_owned();
        proof {
            assert(s@ =~= decimal_digits(n as int));
        }
        s
    } else {
        let mut s = u64_to_decimal(n / 10);
        s.append(digit_str(n % 10));
        proof {
            assert(s@ =~= decimal_digits(n as int));
        }
        s
    }
}

} // verus!
