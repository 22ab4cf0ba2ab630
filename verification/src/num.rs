//! Fixed-point arithmetic used throughout the library.
//!
//! A quantity of `1.0` (one zoom level, one color-channel unit, one pixel) is
//! represented as the integer `SCALE`; fractions are truncated toward zero at
//! three decimal places.

use vstd::prelude::*;

verus! {

/// One whole unit in fixed-point representation.
pub const SCALE: i64 = 1000;

/// The largest magnitude a fixed-point quantity may take. Keeping every value
/// inside this range lets interpolation products stay within `i64`.
pub const BOUND: i64 = 1_000_000_000;

/// A fixed-point value small enough for interpolation arithmetic.
pub open spec fn bounded(v: i64) -> bool {
    -1_000_000_000 <= v <= 1_000_000_000
}

/// Linear interpolation from `v0` toward `v1` by the rational factor
/// `num / den`, rounding toward `v0`.
pub open spec fn spec_lerp(v0: int, v1: int, num: int, den: int) -> int {
    if v1 >= v0 {
        v0 + (v1 - v0) * num / den
    } else {
        v0 - (v0 - v1) * num / den
    }
}

/// Nonnegative integer division.
fn div_nn(a: i64, b: i64) -> (r: i64)
    requires
        0 <= a,
        0 < b,
    ensures
        r == a as int / b as int,
{
    (a as u64 / b as u64) as i64
}

/// Interpolates between two fixed-point values by the factor `num / den`.
/// The result lies between `v0` and `v1`.
pub fn lerp(v0: i64, v1: i64, num: i64, den: i64) -> (r: i64)
    requires
        bounded(v0),
        bounded(v1),
        0 < den <= 2_000_000_000,
        0 <= num <= den,
    ensures
        r == spec_lerp(v0 as int, v1 as int, num as int, den as int),
        bounded(r),
        v0 <= v1 ==> v0 <= r <= v1,
        v1 <= v0 ==> v1 <= r <= v0,
{
    if v1 >= v0 {
        let diff = v1 - v0;
        assert((diff as int) * (num as int) / (den as int) <= diff as int && 0 <= (diff as int)
            * (num as int) / (den as int)) by (nonlinear_arith)
            requires
                0 <= diff as int,
                0 <= num as int <= den as int,
                0 < den as int,
        ;
        assert((diff as int) * (num as int) <= 4_000_000_000_000_000_000) by (nonlinear_arith)
            requires
                0 <= diff as int <= 2_000_000_000,
                0 <= num as int <= 2_000_000_000,
        ;
        let part = div_nn(diff * num, den);
        v0 + part
    } else {
        let diff = v0 - v1;
        assert((diff as int) * (num as int) / (den as int) <= diff as int && 0 <= (diff as int)
            * (num as int) / (den as int)) by (nonlinear_arith)
            requires
                0 <= diff as int,
                0 <= num as int <= den as int,
                0 < den as int,
        ;
        assert((diff as int) * (num as int) <= 4_000_000_000_000_000_000) by (nonlinear_arith)
            requires
                0 <= diff as int <= 2_000_000_000,
                0 <= num as int <= 2_000_000_000,
        ;
        let part = div_nn(diff * num, den);
        v0 - part
    }
}

/// Clamps a fixed-point value to `[lo, hi]`.
pub fn clamp(v: i64, lo: i64, hi: i64) -> (r: i64)
    requires
        lo <= hi,
    ensures
        r == if v < lo { lo } else if v > hi { hi } else { v },
{
    if v < lo {
        lo
    } else if v > hi {
        hi
    } else {
        v
    }
}

} // verus!
