//! Exact decimal rendering of fixed-point quantities.
//!
//! The external tools take their parameters as plain decimal text on the
//! command line. The controller stores every quantity as an integer count
//! of some power-of-ten unit, so the text can be produced exactly: the
//! integer part, then, when the fraction is not zero, a point and the
//! fractional digits with trailing zeros removed.

use vstd::prelude::*;

verus! {

/// The character for a single decimal digit.
pub open spec fn digit_char(d: nat) -> char {
    if d == 0 {
        '0'
    } else if d == 1 {
        '1'
    } else if d == 2 {
        '2'
    } else if d == 3 {
        '3'
    } else if d == 4 {
        '4'
    } else if d == 5 {
        '5'
    } else if d == 6 {
        '6'
    } else if d == 7 {
        '7'
    } else if d == 8 {
        '8'
    } else {
        '9'
    }
}

/// The decimal digits of `n`, most significant first, without leading
/// zeros (a lone zero for zero itself).
pub open spec fn dec_digits(n: nat) -> Seq<char>
    decreases n,
{
    if n < 10 {
        seq![digit_char(n)]
    } else {
        dec_digits(n / 10).push(digit_char(n % 10))
    }
}

/// The lowest `w` decimal digits of `f`, zero-padded on the left to
/// width `w`.
pub open spec fn padded_digits(f: nat, w: nat) -> Seq<char>
    decreases w,
{
    if w == 0 {
        Seq::empty()
    } else {
        padded_digits(f / 10, (w - 1) as nat).push(digit_char(f % 10))
    }
}

/// The fractional digits of `f` at width `w`, with trailing zeros
/// removed.
pub open spec fn frac_digits(f: nat, w: nat) -> Seq<char>
    decreases w,
{
    if w == 0 {
        Seq::empty()
    } else if f % 10 == 0 {
        frac_digits(f / 10, (w - 1) as nat)
    } else {
        padded_digits(f, w)
    }
}

/// `n` scaled down by `div` (ten to the `w`) as decimal text: the integer
/// part, then a point and the fractional digits; the point and the
/// fraction are omitted when the fraction is zero.
pub open spec fn scaled_decimal(n: nat, div: nat, w: nat) -> Seq<char> {
    if n % div == 0 {
        dec_digits(n / div)
    } else {
        dec_digits(n / div) + seq!['.'] + frac_digits(n % div, w)
    }
}

fn digit_str(d: u64) -> (s: &'static str)
    requires
        d < 10,
    ensures
        s@ == seq![digit_char(d as nat)],
{
    let s: &'static str = if d == 0 {
        "0"
    } else if d == 1 {
        "1"
    } else if d == 2 {
        "2"
    } else if d == 3 {
        "3"
    } else if d == 4 {
        "4"
    } else if d == 5 {
        "5"
    } else if d == 6 {
        "6"
    } else if d == 7 {
        "7"
    } else if d == 8 {
        "8"
    } else {
        "9"
    };
    proof {
        reveal_strlit("0");
        reveal_strlit("1");
        reveal_strlit("2");
        reveal_strlit("3");
        reveal_strlit("4");
        reveal_strlit("5");
        reveal_strlit("6");
        reveal_strlit("7");
        reveal_strlit("8");
        reveal_strlit("9");
        assert(s@ =~= seq![digit_char(d as nat)]);
    }
    s
}

/// The decimal digits of `n`, as text.
pub fn dec_string(n: u64) -> (s: String)
    ensures
        s@ == dec_digits(n as nat),
    decreases n,
{
    if n < 10 {
        digit_str(n).to_owned()
    } else {
        let mut s = dec_string(n / 10);
        s.append(digit_str(n % 10));
        proof {
            assert(s@ =~= dec_digits(n as nat));
        }
        s
    }
}

fn padded_string(f: u64, w: u64) -> (s: String)
    ensures
        s@ == padded_digits(f as nat, w as nat),
    decreases w,
{
    if w == 0 {
        String::new()
    } else {
        let mut s = padded_string(f / 10, w - 1);
        s.append(digit_str(f % 10));
        proof {
            assert(s@ =~= padded_digits(f as nat, w as nat));
        }
        s
    }
}

fn frac_string(f: u64, w: u64) -> (s: String)
    ensures
        s@ == frac_digits(f as nat, w as nat),
    decreases w,
{
    if w == 0 {
        String::new()
    } else if f % 10 == 0 {
        frac_string(f / 10, w - 1)
    } else {
        padded_string(f, w)
    }
}

/// `n` scaled down by `div` (ten to the `w`), as decimal text.
pub fn scaled_string(n: u64, div: u64, w: u64) -> (s: String)
    requires
        div > 0,
    ensures
        s@ == scaled_decimal(n as nat, div as nat, w as nat),
{
    let ip = n / div;
    let fp = n % div;
    if fp == 0 {
        dec_string(ip)
    } else {
        let mut s = dec_string(ip);
        s.append(".");
        let frac = frac_string(fp, w);
        s.append(frac.as_str());
        proof {
            reveal_strlit(".");
            assert(s@ =~= scaled_decimal(n as nat, div as nat, w as nat));
        }
        s
    }
}

} // verus!
