//! Overflow-checked integer multiply-divide helpers and an exact integer
//! square root, together with the division lemmas the curve engine builds on.
//!
//! Every multiply of two reserve-scale integers is performed in 128 bits and
//! checked against the balance type before it is returned; every division
//! uses a single stated rounding rule. Failure is always a typed error,
//! never a silent truncation.

use vstd::prelude::*;

verus! {

use crate::errors::AmmError;

/// The quotient of `a / d` rounded towards positive infinity.
pub open spec fn ceil_div(a: int, d: int) -> int
    recommends
        a >= 0,
        d > 0,
{
    (a + d - 1) / d
}

/// Floor division brackets its argument: `d * (m / d) <= m < d * (m / d) + d`.
pub proof fn lemma_floor_div_bounds(m: int, d: int)
    requires
        m >= 0,
        d > 0,
    ensures
        d * (m / d) <= m,
        m < d * (m / d) + d,
        m / d >= 0,
{
    vstd::arithmetic::div_mod::lemma_fundamental_div_mod(m, d);
    vstd::arithmetic::div_mod::lemma_mod_division_less_than_divisor(m, d);
    vstd::arithmetic::div_mod::lemma_div_pos_is_pos(m, d);
}

/// Ceiling division brackets its argument: `m <= d * ceil_div(m, d) < m + d`.
pub proof fn lemma_ceil_div_bounds(m: int, d: int)
    requires
        m >= 0,
        d > 0,
    ensures
        m <= d * ceil_div(m, d),
        d * ceil_div(m, d) < m + d,
        ceil_div(m, d) >= 0,
{
    lemma_floor_div_bounds(m + d - 1, d);
}

/// If `m < (c + 1) * d` then the floor quotient `m / d` is at most `c`.
pub proof fn lemma_floor_div_at_most(m: int, d: int, c: int)
    requires
        m >= 0,
        d > 0,
        (c + 1) * d > m,
    ensures
        m / d <= c,
{
    lemma_floor_div_bounds(m, d);
    assert(m / d <= c) by (nonlinear_arith)
        requires
            d > 0,
            d * (m / d) <= m,
            (c + 1) * d > m,
    ;
}

/// `floor(a * b / d)`, or `DivideByZero` when `d == 0`, or `MathOverflow`
/// when the quotient does not fit in `u64`.
pub fn mul_div_floor(a: u64, b: u64, d: u64) -> (r: Result<u64, AmmError>)
    ensures
        d == 0 ==> r == Err::<u64, AmmError>(AmmError::DivideByZero),
        d != 0 && a as int * b as int / d as int <= u64::MAX ==> r
            == Ok::<u64, AmmError>((a as int * b as int / d as int) as u64),
        d != 0 && a as int * b as int / d as int > u64::MAX ==> r
            == Err::<u64, AmmError>(AmmError::MathOverflow),
{
    if d == 0 {
        return Err(AmmError::DivideByZero);
    }
    proof {
        assert(a as int * b as int <= u64::MAX as int * u64::MAX as int) by (nonlinear_arith)
            requires
                a as int <= u64::MAX as int,
                b as int <= u64::MAX as int,
                a as int >= 0,
                b as int >= 0,
        ;
    }
    let prod: u128 = (a as u128) * (b as u128);
    let q: u128 = prod / (d as u128);
    proof {
        lemma_floor_div_bounds(prod as int, d as int);
    }
    if q > u64::MAX as u128 {
        Err(AmmError::MathOverflow)
    } else {
        Ok(q as u64)
    }
}

/// `ceil(a * b / d)`, or `DivideByZero` when `d == 0`, or `MathOverflow`
/// when the quotient does not fit in `u64`.
pub fn mul_div_ceil(a: u64, b: u64, d: u64) -> (r: Result<u64, AmmError>)
    ensures
        d == 0 ==> r == Err::<u64, AmmError>(AmmError::DivideByZero),
        d != 0 && ceil_div(a as int * b as int, d as int) <= u64::MAX ==> r
            == Ok::<u64, AmmError>(ceil_div(a as int * b as int, d as int) as u64),
        d != 0 && ceil_div(a as int * b as int, d as int) > u64::MAX ==> r
            == Err::<u64, AmmError>(AmmError::MathOverflow),
{
    if d == 0 {
        return Err(AmmError::DivideByZero);
    }
    proof {
        assert(a as int * b as int <= u64::MAX as int * u64::MAX as int) by (nonlinear_arith)
            requires
                a as int <= u64::MAX as int,
                b as int <= u64::MAX as int,
                a as int >= 0,
                b as int >= 0,
        ;
    }
    let prod: u128 = (a as u128) * (b as u128);
    let q: u128 = (prod + (d - 1) as u128) / (d as u128);
    proof {
        lemma_floor_div_bounds(prod as int + d as int - 1, d as int);
    }
    if q > u64::MAX as u128 {
        Err(AmmError::MathOverflow)
    } else {
        Ok(q as u64)
    }
}

/// The exact integer square root: the largest `r` with `r * r <= n`.
///
/// The bracketing postcondition makes the result monotonic in `n` and exact
/// on perfect squares.
pub fn isqrt(n: u64) -> (r: u64)
    ensures
        r as int * r as int <= n as int,
        (r as int + 1) * (r as int + 1) > n as int,
{
    let mut lo: u64 = 0;
    let mut hi: u64 = 0x1_0000_0000;
    proof {
        assert(0x1_0000_0000int * 0x1_0000_0000int > n as int) by (nonlinear_arith)
            requires
                n as int <= u64::MAX as int,
        ;
    }
    while hi - lo > 1
        invariant
            lo < hi,
            hi <= 0x1_0000_0000,
            lo as int * lo as int <= n as int,
            hi as int * hi as int > n as int,
        decreases hi - lo,
    {
        let mid: u64 = lo + (hi - lo) / 2;
        proof {
            assert(mid as int * mid as int <= 0x1_0000_0000int * 0x1_0000_0000int) by (nonlinear_arith)
                requires
                    mid as int <= 0x1_0000_0000int,
                    mid as int >= 0,
            ;
        }
        let sq: u128 = (mid as u128) * (mid as u128);
        if sq <= n as u128 {
            lo = mid;
        } else {
            hi = mid;
        }
    }
    lo
}

} // verus!
