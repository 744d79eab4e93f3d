//! Rendering of elapsed whole seconds as `HH:MM:SS` text.
//!
//! The total is split with integer division: seconds and minutes wrap at 60,
//! hours accumulate without bound. Every component is zero-padded to at least
//! two digits; hours grow past two digits when needed.

use vstd::prelude::*;

verus! {

/// The decimal digit character for a single digit value.
pub open spec fn spec_digit(d: nat) -> char
    recommends
        d < 10,
{
    if d == 0 {
        '0'
    } else if d == 1 {
        '1'
    } else if d == 2 {
        '2'
    } else if d == 3 {
        '3'
    } else if d == 4 {
        '4'
    } else if d == 5 {
        '5'
    } else if d == 6 {
        '6'
    } else if d == 7 {
        '7'
    } else if d == 8 {
        '8'
    } else {
        '9'
    }
}

/// The decimal representation of `n`, most significant digit first, with no
/// leading zeros (a single `'0'` for zero).
pub open spec fn spec_decimal(n: nat) -> Seq<char>
    decreases n,
{
    if n < 10 {
        seq![spec_digit(n)]
    } else {
        spec_decimal(n / 10) + seq![spec_digit(n % 10)]
    }
}

/// The decimal representation of `n` zero-padded on the left to at least two
/// digits.
pub open spec fn spec_pad2(n: nat) -> Seq<char> {
    if n < 10 {
        seq!['0', spec_digit(n)]
    } else {
        spec_decimal(n)
    }
}

/// The `HH:MM:SS` rendering of `total` elapsed seconds: minutes and seconds
/// wrap at 60, hours accumulate without bound.
pub open spec fn spec_time(total: nat) -> Seq<char> {
    spec_pad2(total / 60 / 60) + seq![':'] + spec_pad2((total / 60) % 60) + seq![':'] + spec_pad2(
        total % 60,
    )
}

fn digit_str(d: u64) -> (r: &'static str)
    requires
        d < 10,
    ensures
        r@ == seq![spec_digit(d as nat)],
{
    proof {
        reveal_strlit("0");
        reveal_strlit("1");
        reveal_strlit("2");
        reveal_strlit("3");
        reveal_strlit("4");
        reveal_strlit("5");
        reveal_strlit("6");
        reveal_strlit("7");
        reveal_strlit("8");
        reveal_strlit("9");
    }
    let r = match d {
        0 => "0",
        1 => "1",
        2 => "2",
        3 => "3",
        4 => "4",
        5 => "5",
        6 => "6",
        7 => "7",
        8 => "8",
        _ => "9",
    };
    proof {
        assert(r@ =~= seq![spec_digit(d as nat)]);
    }
    r
}

/// The decimal representation of `n`, without leading zeros.
pub fn decimal_str(n: u64) -> (r: String)
    ensures
        r@ == spec_decimal(n as nat),
    decreases n,
{
    if n < 10 {
        let r = String::from_str(digit_str(n));
        proof {
            assert(r@ =~= spec_decimal(n as nat));
        }
        r
    } else {
        let mut r = decimal_str(n / 10);
        r.append(digit_str(n % 10));
        proof {
            assert(r@ =~= spec_decimal(n as nat));
        }
        r
    }
}

/// The decimal representation of `n`, zero-padded to at least two digits.
pub fn pad2_str(n: u64) -> (r: String)
    ensures
        r@ == spec_pad2(n as nat),
{
    if n < 10 {
        proof {
            reveal_strlit("0");
        }
        let mut r = String::from_str("0");
        r.append(digit_str(n));
        proof {
            assert(r@ =~= spec_pad2(n as nat));
        }
        r
    } else {
        decimal_str(n)
    }
}

/// Renders `total` elapsed seconds as `HH:MM:SS`.
pub fn format_elapsed(total: u64) -> (r: String)
    ensures
        r@ == spec_time(total as nat),
{
    let sec = total % 60;
    let min = (total / 60) % 60;
    let hours = (total / 60) / 60;
    proof {
        reveal_strlit(":");
    }
    let mut r = pad2_str(hours);
    r.append(":");
    let m = pad2_str(min);
    r.append(m.as_str());
    r.append(":");
    let s = pad2_str(sec);
    r.append(s.as_str());
    proof {
        assert(r@ =~= spec_time(total as nat));
    }
    r
}

} // verus!
