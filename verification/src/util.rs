//! Small shared helpers.

use vstd::prelude::*;

verus! {

/// String-slice equality, stated over the character views.
pub fn str_eq(a: &str, b: &str) -> (r: bool)
    ensures
        r == (a@ == b@),
{
    let sa = a.to_owned();
    let sb = b.to_owned();
    sa == sb
}

/// The smaller of two unsigned values.
pub fn min_u64(a: u64, b: u64) -> (r: u64)
    ensures
        r == if a < b {
            a
        } else {
            b
        },
{
    if a < b {
        a
    } else {
        b
    }
}

/// The smaller of two order quantities.
pub fn min_u32(a: u32, b: u32) -> (r: u32)
    ensures
        r == if a < b {
            a
        } else {
            b
        },
{
    if a < b {
        a
    } else {
        b
    }
}

/// Decimal digits of a small number, as a string slice.
fn digit_str(d: u32) -> (r: &'static str)
    requires
        d < 10,
    ensures
        r@.len() == 1,
{
    proof {
        reveal_strlit("0");
        reveal_strlit("1");
        reveal_strlit("2");
        reveal_strlit("3");
        reveal_strlit("4");
        reveal_strlit("5");
        reveal_strlit("6");
        reveal_strlit("7");
        reveal_strlit("8");
        reveal_strlit("9");
    }
    match d {
        0 => "0",
        1 => "1",
        2 => "2",
        3 => "3",
        4 => "4",
        5 => "5",
        6 => "6",
        7 => "7",
        8 => "8",
        _ => "9",
    }
}

/// Decimal rendering of an unsigned number.
pub fn u32_to_string(n: u32) -> (r: String)
    ensures
        r@.len() >= 1,
{
    let mut digits: Vec<u32> = Vec::new();
    let mut rest: u32 = n;
    loop
        invariant
            digits@.len() <= 10,
            rest <= n,
        decreases rest,
    {
        if digits.len() >= 10 {
            break;
        }
        digits.push(rest % 10);
        rest = rest / 10;
        if rest == 0 {
            break;
        }
    }
    let mut out = String::new();
    let m = digits.len();
    let ghost total = m;
    let mut i: usize = m;
    while i > 0
        invariant
            i <= m,
            m == digits@.len(),
            m <= 10,
            out@.len() >= m - i,
        decreases i,
    {
        i = i - 1;
        let d = digits[i] % 10;
        out.append(digit_str(d));
    }
    if m == 0 {
        proof {
            reveal_strlit("0");
        }
        return "0".to_owned();
    }
    out
}

} // verus!
