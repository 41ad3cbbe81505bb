//! Saturating fixed-point arithmetic.
//!
//! A scalar is an `i64` counting millionths: the value `1.5` is held as
//! `1_500_000`. Sums and products that leave the range of `i64` stick at the
//! nearest end of it, so every operation is total.

use vstd::prelude::*;

verus! {

/// Number of units that make up the value one.
pub const SCALE: i64 = 1_000_000;

/// The nearest `i64` to `x`.
pub open spec fn saturate(x: int) -> int {
    if x < i64::MIN {
        i64::MIN as int
    } else if x > i64::MAX {
        i64::MAX as int
    } else {
        x
    }
}

/// `x` brought into the closed interval from `lo` to `hi`.
pub open spec fn bounded(x: int, lo: int, hi: int) -> int {
    if x < lo {
        lo
    } else if x > hi {
        hi
    } else {
        x
    }
}

/// The quotient of `p` by `SCALE`, rounded towards zero.
pub open spec fn unscale(p: int) -> int {
    if p >= 0 {
        p / (SCALE as int)
    } else {
        -((-p) / (SCALE as int))
    }
}

/// The saturated sum of two scalars.
pub open spec fn sum(a: int, b: int) -> int {
    saturate(a + b)
}

/// The saturated difference of two scalars.
pub open spec fn difference(a: int, b: int) -> int {
    saturate(a - b)
}

/// The saturated fixed-point product of two scalars, rounded towards zero.
pub open spec fn product(a: int, b: int) -> int {
    saturate(unscale(a * b))
}

/// The product of two `i64` values lies within `i128`.
proof fn lemma_wide_product_fits(a: int, b: int)
    requires
        i64::MIN <= a <= i64::MAX,
        i64::MIN <= b <= i64::MAX,
    ensures
        -0x4000_0000_0000_0000_0000_0000_0000_0000 <= a * b
            <= 0x4000_0000_0000_0000_0000_0000_0000_0000,
{
    let m: int = 0x8000_0000_0000_0000;
    assert(-m <= a <= m);
    assert(-m <= b <= m);
    assert(-(m * m) <= a * b <= m * m) by (nonlinear_arith)
        requires
            -m <= a <= m,
            -m <= b <= m,
            m >= 0,
    ;
    assert(m * m == 0x4000_0000_0000_0000_0000_0000_0000_0000) by (nonlinear_arith)
        requires
            m == 0x8000_0000_0000_0000,
    ;
}

/// Narrows a wide intermediate result to the nearest `i64`.
fn narrow(x: i128) -> (r: i64)
    ensures
        r == saturate(x as int),
{
    if x < -0x8000_0000_0000_0000 {
        i64::MIN
    } else if x > 0x7fff_ffff_ffff_ffff {
        i64::MAX
    } else {
        x as i64
    }
}

/// Adds two scalars, sticking at the ends of the `i64` range.
pub fn add_scalars(a: i64, b: i64) -> (r: i64)
    ensures
        r == sum(a as int, b as int),
{
    let wide: i128 = a as i128 + b as i128;
    narrow(wide)
}

/// Subtracts `b` from `a`, sticking at the ends of the `i64` range.
pub fn sub_scalars(a: i64, b: i64) -> (r: i64)
    ensures
        r == difference(a as int, b as int),
{
    let wide: i128 = a as i128 - b as i128;
    narrow(wide)
}

/// Multiplies two scalars as fixed-point numbers, rounding towards zero and
/// sticking at the ends of the `i64` range.
pub fn mul_scalars(a: i64, b: i64) -> (r: i64)
    ensures
        r == product(a as int, b as int),
{
    proof {
        lemma_wide_product_fits(a as int, b as int);
    }
    let wide: i128 = (a as i128) * (b as i128);
    let quotient: i128 = if wide >= 0 {
        wide / 1_000_000
    } else {
        -((-wide) / 1_000_000)
    };
    narrow(quotient)
}

/// Brings `input` into the closed interval from `min` to `max` by calling
/// `num_traits::clamp`: the result is `min` where `input` lies below it,
/// `max` where `input` lies above it, and `input` itself otherwise. That
/// function rejects `min > max` in debug builds, so such bounds are excluded.
#[verifier::external_body]
pub(crate) fn clamp_scalar(input: i64, min: i64, max: i64) -> (r: i64)
    requires
        min <= max,
    ensures
        r == bounded(input as int, min as int, max as int),
{
    num_traits::clamp(input, min, max)
}

} // verus!
