//! Decimal rendering of the package number for the output line, proved
//! against a spec-level definition of base-ten notation.

use vstd::prelude::*;
use vstd::string::StringExecFns;

verus! {

/// The digit character for a value below ten.
pub open spec fn digit_char(d: nat) -> char {
    if d == 0 {
        '0'
    } else if d == 1 {
        '1'
    } else if d == 2 {
        '2'
    } else if d == 3 {
        '3'
    } else if d == 4 {
        '4'
    } else if d == 5 {
        '5'
    } else if d == 6 {
        '6'
    } else if d == 7 {
        '7'
    } else if d == 8 {
        '8'
    } else {
        '9'
    }
}

/// Base-ten notation of a natural number: most significant digit first, no
/// leading zero except for zero itself.
pub open spec fn decimal_rep(n: nat) -> Seq<char>
    decreases n,
{
    if n < 10 {
        seq![digit_char(n)]
    } else {
        decimal_rep(n / 10).push(digit_char(n % 10))
    }
}

/// Base-ten notation of a signed number: a leading `-` for negatives.
pub open spec fn signed_decimal_rep(n: int) -> Seq<char> {
    if n < 0 {
        seq!['-'] + decimal_rep((-n) as nat)
    } else {
        decimal_rep(n as nat)
    }
}

/// The one-character string for a digit value.
fn digit_str(d: u32) -> (r: &'static str)
    requires
        d < 10,
    ensures
        r@ == seq![digit_char(d as nat)],
{
    proof {
        reveal_strlit("0");
        reveal_strlit("1");
        reveal_strlit("2");
        reveal_strlit("3");
        reveal_strlit("4");
        reveal_strlit("5");
        reveal_strlit("6");
        reveal_strlit("7");
        reveal_strlit("8");
        reveal_strlit("9");
    }
    let r: &'static str = match d {
        0 => "0",
        1 => "1",
        2 => "2",
        3 => "3",
        4 => "4",
        5 => "5",
        6 => "6",
        7 => "7",
        8 => "8",
        _ => "9",
    };
    proof {
        assert(r@ =~= seq![digit_char(d as nat)]);
    }
    r
}

/// Render an unsigned number in base ten.
pub fn u32_decimal(n: u32) -> (r: String)
    ensures
        r@ == decimal_rep(n as nat),
    decreases n,
{
    if n < 10 {
        String::from_str(digit_str(n))
    } else {
        let mut s = u32_decimal(n / 10);
        s.append(digit_str(n % 10));
        proof {
            assert(s@ =~= decimal_rep(n as nat));
        }
        s
    }
}

/// Render a signed number in base ten, with a leading `-` when negative.
pub fn i32_decimal(n: i32) -> (r: String)
    ensures
        r@ == signed_decimal_rep(n as int),
{
    if n >= 0 {
        u32_decimal(n as u32)
    } else {
        let magnitude: u32 = (-(n as i64)) as u32;
        let mut s = String::from_str("-");
        s.append(u32_decimal(magnitude).as_str());
        proof {
            reveal_strlit("-");
            assert(s@ =~= signed_decimal_rep(n as int));
        }
        s
    }
}

} // verus!
