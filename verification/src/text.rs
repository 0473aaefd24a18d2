//! Decimal text: the minimal decimal representation of a small
//! unsigned integer, as it is written into a tunable file.

use vstd::prelude::*;
use vstd::string::StringExecFns;

verus! {

/// The character for one decimal digit.
pub open spec fn digit_char(d: nat) -> char {
    if d == 0 {
        '0'
    } else if d == 1 {
        '1'
    } else if d == 2 {
        '2'
    } else if d == 3 {
        '3'
    } else if d == 4 {
        '4'
    } else if d == 5 {
        '5'
    } else if d == 6 {
        '6'
    } else if d == 7 {
        '7'
    } else if d == 8 {
        '8'
    } else {
        '9'
    }
}

/// The minimal decimal representation of `n`: most significant digit
/// first, no leading zeros (and `0` itself is written `"0"`).
pub open spec fn spec_decimal(n: nat) -> Seq<char>
    decreases n,
{
    if n < 10 {
        seq![digit_char(n)]
    } else {
        spec_decimal(n / 10).push(digit_char(n % 10))
    }
}

/// The one-character string for a decimal digit.
fn digit_str(d: u8) -> (s: &'static str)
    requires
        d < 10,
    ensures
        s@ == seq![digit_char(d as nat)],
{
    proof {
        reveal_strlit("0");
        reveal_strlit("1");
        reveal_strlit("2");
        reveal_strlit("3");
        reveal_strlit("4");
        reveal_strlit("5");
        reveal_strlit("6");
        reveal_strlit("7");
        reveal_strlit("8");
        reveal_strlit("9");
    }
    let s: &'static str = match d {
        0 => "0",
        1 => "1",
        2 => "2",
        3 => "3",
        4 => "4",
        5 => "5",
        6 => "6",
        7 => "7",
        8 => "8",
        _ => "9",
    };
    proof {
        assert(s@ =~= seq![digit_char(d as nat)]);
    }
    s
}

/// Writes `n` as minimal decimal text (no leading zeros, no newline).
pub fn decimal_string(n: u8) -> (s: String)
    ensures
        s@ == spec_decimal(n as nat),
{
    let mut s = String::new();
    if n >= 100 {
        s.append(digit_str(n / 100));
    }
    if n >= 10 {
        s.append(digit_str((n / 10) % 10));
    }
    s.append(digit_str(n % 10));
    proof {
        let m = n as nat;
        if m < 10 {
            assert(m % 10 == m);
            assert(s@ =~= spec_decimal(m));
        } else if m < 100 {
            assert(m / 10 < 10);
            assert((m / 10) % 10 == m / 10);
            assert(spec_decimal(m / 10) == seq![digit_char(m / 10)]);
            assert(s@ =~= spec_decimal(m));
        } else {
            assert(m / 100 < 10);
            assert((m / 10) / 10 == m / 100) by (nonlinear_arith)
                requires m >= 100 && m <= 255;
            assert(10 <= m / 10 < 100);
            assert(spec_decimal(m / 10) == spec_decimal(m / 100).push(digit_char((m / 10) % 10)));
            assert(spec_decimal(m / 100) == seq![digit_char(m / 100)]);
            assert(s@ =~= spec_decimal(m));
        }
    }
    s
}

} // verus!
