//! Decimal rendering of byte counts and of the compression ratio shown to
//! the user, specified character by character.

use vstd::prelude::*;
use vstd::string::StrSliceExecFns;
use vstd::string::StringExecFns;

verus! {

/// The character for one decimal digit.
pub open spec fn digit_char(d: nat) -> char
    recommends
        d < 10,
{
    if d == 0 {
        '0'
    } else if d == 1 {
        '1'
    } else if d == 2 {
        '2'
    } else if d == 3 {
        '3'
    } else if d == 4 {
        '4'
    } else if d == 5 {
        '5'
    } else if d == 6 {
        '6'
    } else if d == 7 {
        '7'
    } else if d == 8 {
        '8'
    } else {
        '9'
    }
}

/// The usual decimal rendering of `n`, most significant digit first, with no
/// leading zeros (a single `'0'` for zero).
pub open spec fn dec_seq(n: nat) -> Seq<char>
    decreases n,
{
    if n < 10 {
        seq![digit_char(n)]
    } else {
        dec_seq(n / 10).push(digit_char(n % 10))
    }
}

fn digit_str(d: u64) -> (r: &'static str)
    requires
        d < 10,
    ensures
        r@ == seq![digit_char(d as nat)],
{
    let r: &'static str = if d == 0 {
        "0"
    } else if d == 1 {
        "1"
    } else if d == 2 {
        "2"
    } else if d == 3 {
        "3"
    } else if d == 4 {
        "4"
    } else if d == 5 {
        "5"
    } else if d == 6 {
        "6"
    } else if d == 7 {
        "7"
    } else if d == 8 {
        "8"
    } else {
        "9"
    };
    proof {
        reveal_strlit("0");
        reveal_strlit("1");
        reveal_strlit("2");
        reveal_strlit("3");
        reveal_strlit("4");
        reveal_strlit("5");
        reveal_strlit("6");
        reveal_strlit("7");
        reveal_strlit("8");
        reveal_strlit("9");
        assert(r@ =~= seq![digit_char(d as nat)]);
    }
    r
}

/// Render `n` in decimal.
pub fn u64_to_string(n: u64) -> (r: String)
    ensures
        r@ == dec_seq(n as nat),
    decreases n,
{
    if n < 10 {
        String::from_str(digit_str(n))
    } else {
        let mut s = u64_to_string(n / 10);
        s.append(digit_str(n % 10));
        proof {
            assert(s@ =~= dec_seq(n as nat));
        }
        s
    }
}

/// The ratio `c / o`, scaled to hundredths of a percent and truncated,
/// capped at `u64::MAX` so it always fits a machine word.
pub open spec fn spec_ratio_permyriad(c: nat, o: nat) -> nat
    recommends
        o > 0,
{
    if c * 10000 / o > u64::MAX as nat {
        u64::MAX as nat
    } else {
        c * 10000 / o
    }
}

/// Compute `c / o` in truncated hundredths of a percent.
pub fn ratio_permyriad(c: u64, o: u64) -> (r: u64)
    requires
        o > 0,
    ensures
        r as nat == spec_ratio_permyriad(c as nat, o as nat),
{
    let wide: u128 = (c as u128) * 10000;
    let q: u128 = wide / (o as u128);
    proof {
        assert(wide == (c as nat) * 10000) by (nonlinear_arith)
            requires
                wide == (c as u128) * 10000,
        ;
    }
    if q > u64::MAX as u128 {
        u64::MAX
    } else {
        q as u64
    }
}

/// Two fixed decimal digits, leading zero included: the fractional part of a
/// percentage such as `7` rendered as `"07"`.
pub open spec fn two_digit_seq(d: nat) -> Seq<char>
    recommends
        d < 100,
{
    seq![digit_char(d / 10), digit_char(d % 10)]
}

/// Render a value below one hundred as exactly two digits.
pub fn two_digit_string(d: u64) -> (r: String)
    requires
        d < 100,
    ensures
        r@ == two_digit_seq(d as nat),
{
    let mut s = String::from_str(digit_str(d / 10));
    s.append(digit_str(d % 10));
    proof {
        assert(s@ =~= two_digit_seq(d as nat));
    }
    s
}

/// The displayed percentage for output size `c` against input size `o`:
/// whole percent, a dot, then two truncated fractional digits (`"0.00"` when
/// the input size is zero).
pub open spec fn spec_ratio_text(c: nat, o: nat) -> Seq<char> {
    if o == 0 {
        seq!['0', '.', '0', '0']
    } else {
        let p = spec_ratio_permyriad(c, o);
        dec_seq(p / 100) + seq!['.'] + two_digit_seq(p % 100)
    }
}

/// Render the percentage `c / o * 100` with two truncated decimals.
pub fn ratio_text(c: u64, o: u64) -> (r: String)
    ensures
        r@ == spec_ratio_text(c as nat, o as nat),
{
    if o == 0 {
        let r = String::from_str("0.00");
        proof {
            reveal_strlit("0.00");
            assert(r@ =~= spec_ratio_text(c as nat, o as nat));
        }
        r
    } else {
        let p = ratio_permyriad(c, o);
        let mut s = u64_to_string(p / 100);
        s.append(".");
        let frac = two_digit_string(p % 100);
        s.append(frac.as_str());
        proof {
            reveal_strlit(".");
            assert(s@ =~= spec_ratio_text(c as nat, o as nat));
        }
        s
    }
}

} // verus!
