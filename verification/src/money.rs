//! Saturating fixed-point money arithmetic.
//!
//! Rates are expressed in basis points (one hundredth of a percent), so a
//! yearly growth step at rate `r` turns a balance `b` into
//! `b * (RATE_SCALE + r) / RATE_SCALE`, rounded down. Every operation clamps
//! its result to the `u64` range, so the engine is total: no input can make
//! it overflow or panic.

use vstd::prelude::*;

verus! {

/// Number of basis points that make up a factor of one.
pub const RATE_SCALE: u64 = 10000;

/// Yearly inflation applied to expenses: 3%.
pub const INFLATION_RATE_BP: u64 = 300;

/// Yearly growth applied to career income: 3%.
pub const SALARY_GROWTH_RATE_BP: u64 = 300;

/// Yearly return of investment-like buckets: 7%.
pub const INVESTMENT_RETURN_RATE_BP: u64 = 700;

/// Yearly return of cash-like (and inert) buckets: 1%.
pub const CASH_RETURN_RATE_BP: u64 = 100;

/// Clamps a mathematical integer into the `u64` range.
pub open spec fn sat64(x: int) -> int {
    if x > u64::MAX {
        u64::MAX as int
    } else if x < 0 {
        0
    } else {
        x
    }
}

/// Saturating addition of two amounts.
pub open spec fn sat_add(a: int, b: int) -> int {
    sat64(a + b)
}

/// One year of growth at `rate_bp` basis points, rounded down and clamped.
pub open spec fn grow(balance: int, rate_bp: int) -> int {
    sat64((balance * (RATE_SCALE + rate_bp)) / (RATE_SCALE as int))
}

/// `n` consecutive years of growth at `rate_bp` basis points.
pub open spec fn grow_n(base: int, rate_bp: int, n: nat) -> int
    decreases n,
{
    if n == 0 {
        base
    } else {
        grow(grow_n(base, rate_bp, (n - 1) as nat), rate_bp)
    }
}

/// Adds two amounts, saturating at `u64::MAX`.
pub fn sat_add_u64(a: u64, b: u64) -> (r: u64)
    ensures
        r == sat_add(a as int, b as int),
{
    if b > u64::MAX - a {
        u64::MAX
    } else {
        a + b
    }
}

/// Applies one year of growth at `rate_bp` basis points, saturating at
/// `u64::MAX`.
pub fn grow_u64(balance: u64, rate_bp: u64) -> (r: u64)
    requires
        rate_bp <= u64::MAX - RATE_SCALE,
    ensures
        r == grow(balance as int, rate_bp as int),
{
    let factor: u128 = rate_bp as u128 + RATE_SCALE as u128;
    assert(0 <= (balance as int) * (factor as int) <= u128::MAX) by (nonlinear_arith)
        requires
            0 <= balance <= u64::MAX,
            0 <= factor <= u64::MAX,
    {
    }
    let product: u128 = (balance as u128) * factor;
    let quotient: u128 = product / (RATE_SCALE as u128);
    if quotient > u64::MAX as u128 {
        u64::MAX
    } else {
        quotient as u64
    }
}

/// Applies `n` consecutive years of growth at `rate_bp` basis points.
pub fn grow_n_u64(base: u64, rate_bp: u64, n: u32) -> (r: u64)
    requires
        rate_bp <= u64::MAX - RATE_SCALE,
    ensures
        r == grow_n(base as int, rate_bp as int, n as nat),
{
    let mut acc: u64 = base;
    let mut j: u32 = 0;
    while j < n
        invariant
            j <= n,
            rate_bp <= u64::MAX - RATE_SCALE,
            acc == grow_n(base as int, rate_bp as int, j as nat),
        decreases n - j,
    {
        acc = grow_u64(acc, rate_bp);
        j = j + 1;
    }
    acc
}

} // verus!
