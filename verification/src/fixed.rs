//! Fixed-point fractions counted in millionths.
//!
//! A value `v` stands for the fraction `v / SCALE`. Every quotient is rounded
//! towards zero, once, at the place where its contract says so.

use vstd::prelude::*;

verus! {

/// The fixed-point representation of `1.0`.
pub const SCALE: u64 = 1_000_000;

/// `num / den` in millionths, rounded down.
pub open spec fn ratio_spec(num: int, den: int) -> int
    recommends
        den > 0,
{
    num * (SCALE as int) / den
}

/// The weighted mean `(wa * a + wb * b) / 10` of two fixed-point values,
/// with weights given in tenths.
pub open spec fn mix_spec(wa: int, a: int, wb: int, b: int) -> int {
    (wa * a + wb * b) / 10
}

/// If `0 <= num <= den` then `num / den` lies in `[0, 1]`.
pub proof fn ratio_in_unit(num: int, den: int)
    requires
        0 <= num <= den,
        den > 0,
    ensures
        0 <= ratio_spec(num, den) <= SCALE,
{
    assert(num * (SCALE as int) / den <= SCALE as int) by (nonlinear_arith)
        requires
            0 <= num * (SCALE as int) <= den * (SCALE as int),
            den > 0,
    ;
}

/// Computes `num / den` in millionths, rounded down.
pub fn ratio(num: u128, den: u128) -> (r: u64)
    requires
        0 < den,
        num <= den,
        den * SCALE <= u128::MAX,
    ensures
        r == ratio_spec(num as int, den as int),
        r <= SCALE,
{
    proof {
        ratio_in_unit(num as int, den as int);
    }
    let wide: u128 = num * (SCALE as u128);
    let q: u128 = wide / den;
    q as u64
}

/// The weighted mean of two fixed-point values, with weights in tenths that
/// add up to ten.
pub fn mix(wa: u64, a: u64, wb: u64, b: u64) -> (r: u64)
    requires
        wa + wb == 10,
        a <= SCALE,
        b <= SCALE,
    ensures
        r == mix_spec(wa as int, a as int, wb as int, b as int),
        r <= SCALE,
{
    assert(wa * a <= wa * SCALE) by (nonlinear_arith)
        requires
            a <= SCALE,
            wa >= 0,
    ;
    assert(wb * b <= wb * SCALE) by (nonlinear_arith)
        requires
            b <= SCALE,
            wb >= 0,
    ;
    (wa * a + wb * b) / 10
}

} // verus!
