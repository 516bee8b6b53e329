//! Verified decimal text rendering for the wire payload.
//!
//! The telemetry line format needs two numeric renderings: plain decimal for
//! count quantities, and fixed-point with exactly two decimals for the
//! milli-unit quantities (temperature, humidity, illuminance). Both are
//! defined here as spec functions over character sequences and implemented by
//! exec functions that append to a `String`.

use vstd::prelude::*;

verus! {

/// The ASCII digit character for a value 0 through 9.
pub open spec fn digit_char(d: int) -> char {
    if d == 0 {
        '0'
    } else if d == 1 {
        '1'
    } else if d == 2 {
        '2'
    } else if d == 3 {
        '3'
    } else if d == 4 {
        '4'
    } else if d == 5 {
        '5'
    } else if d == 6 {
        '6'
    } else if d == 7 {
        '7'
    } else if d == 8 {
        '8'
    } else {
        '9'
    }
}

/// Decimal digits of `n`, most significant first, without leading zeros
/// (zero itself is the single digit `0`).
pub open spec fn dec_chars(n: nat) -> Seq<char>
    decreases n,
{
    if n < 10 {
        seq![digit_char(n as int)]
    } else {
        dec_chars(n / 10) + seq![digit_char((n % 10) as int)]
    }
}

/// Fixed-point rendering of a milli-unit value with exactly two decimals: an
/// optional minus sign, the whole part without leading zeros, a point, and two
/// digits. The third decimal is rounded half away from zero, so 21500 renders
/// as `21.50` and -5125 as `-5.13`.
pub open spec fn fixed2_chars(milli: int) -> Seq<char> {
    let magnitude = if milli < 0 {
        -milli
    } else {
        milli
    };
    let centi = (magnitude + 5) / 10;
    let sign: Seq<char> = if milli < 0 {
        seq!['-']
    } else {
        Seq::empty()
    };
    sign + dec_chars((centi / 100) as nat) + seq![
        '.',
        digit_char((centi / 10) % 10),
        digit_char(centi % 10),
    ]
}

/// Appends the single ASCII digit for `d`.
fn push_digit(out: &mut String, d: u64)
    requires
        d < 10,
    ensures
        final(out)@ == old(out)@ + seq![digit_char(d as int)],
{
    let digit = match d {
        0 => "0",
        1 => "1",
        2 => "2",
        3 => "3",
        4 => "4",
        5 => "5",
        6 => "6",
        7 => "7",
        8 => "8",
        _ => "9",
    };
    proof {
        reveal_strlit("0");
        reveal_strlit("1");
        reveal_strlit("2");
        reveal_strlit("3");
        reveal_strlit("4");
        reveal_strlit("5");
        reveal_strlit("6");
        reveal_strlit("7");
        reveal_strlit("8");
        reveal_strlit("9");
        assert(digit@ =~= seq![digit_char(d as int)]);
    }
    out.append(digit);
}

/// Appends the decimal digits of `n`, most significant first.
pub fn push_decimal(out: &mut String, n: u64)
    ensures
        final(out)@ == old(out)@ + dec_chars(n as nat),
    decreases n,
{
    if n >= 10 {
        push_decimal(out, n / 10);
    }
    push_digit(out, n % 10);
    proof {
        assert(out@ =~= old(out)@ + dec_chars(n as nat));
    }
}

/// The decimal digits of `n` as a string; used for the content-length header
/// value among others.
pub fn decimal_string(n: u64) -> (s: String)
    ensures
        s@ == dec_chars(n as nat),
{
    let mut s = String::new();
    push_decimal(&mut s, n);
    s
}

/// Appends the two-decimal fixed-point rendering of a milli-unit value.
pub fn push_fixed2(out: &mut String, milli: i64)
    requires
        milli != i64::MIN,
    ensures
        final(out)@ == old(out)@ + fixed2_chars(milli as int),
{
    let magnitude: u64 = if milli < 0 {
        proof {
            reveal_strlit("-");
        }
        out.append("-");
        (-milli) as u64
    } else {
        milli as u64
    };
    let centi: u64 = (magnitude + 5) / 10;
    push_decimal(out, centi / 100);
    proof {
        reveal_strlit(".");
    }
    out.append(".");
    push_digit(out, (centi / 10) % 10);
    push_digit(out, centi % 10);
    proof {
        assert(out@ =~= old(out)@ + fixed2_chars(milli as int));
    }
}

} // verus!
