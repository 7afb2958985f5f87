//! Fixed-point arithmetic shared by the parameter engine and the DSP kernels.
//!
//! A value `v` stands for the real number `v / AMP_SCALE`. Multiplication of
//! a sample by a gain truncates toward zero, exactly as a hardware DSP
//! multiply-and-shift would.

use vstd::prelude::*;

use crate::{AMP_LIMIT, AMP_SCALE, SAMPLE_LIMIT};

verus! {

/// Division truncating toward zero (the behaviour of `/` on machine
/// integers), for a positive divisor.
pub open spec fn tdiv(a: int, b: int) -> int
    recommends
        b > 0,
{
    if a >= 0 {
        a / b
    } else {
        -((-a) / b)
    }
}

/// Fixed-point product of a sample and a gain: `s * g` scaled back down by
/// `AMP_SCALE`, truncating toward zero.
pub open spec fn mul_fp_spec(s: int, g: int) -> int {
    tdiv(s * g, AMP_SCALE as int)
}

/// Clamp `v` into `[lo, hi]`.
pub open spec fn clamp_spec(v: int, lo: int, hi: int) -> int
    recommends
        lo <= hi,
{
    if v < lo {
        lo
    } else if v > hi {
        hi
    } else {
        v
    }
}

/// Clamp a value into `[lo, hi]`.
pub fn clamp_i64(v: i64, lo: i64, hi: i64) -> (r: i64)
    requires
        lo <= hi,
    ensures
        r == clamp_spec(v as int, lo as int, hi as int),
        lo <= r <= hi,
{
    if v < lo {
        lo
    } else if v > hi {
        hi
    } else {
        v
    }
}

/// Multiply a sample by a fixed-point gain, truncating toward zero.
pub fn mul_fp(s: i64, g: i64) -> (r: i64)
    requires
        -SAMPLE_LIMIT <= s <= SAMPLE_LIMIT,
        -AMP_LIMIT <= g <= AMP_LIMIT,
    ensures
        r == mul_fp_spec(s as int, g as int),
        -16 * SAMPLE_LIMIT <= r <= 16 * SAMPLE_LIMIT,
{
    let neg: bool = (s < 0) != (g < 0);
    let sa: u64 = if s < 0 {
        (-s) as u64
    } else {
        s as u64
    };
    let ga: u64 = if g < 0 {
        (-g) as u64
    } else {
        g as u64
    };
    proof {
        lemma_mul_fp_magnitude(s as int, g as int, sa as int, ga as int);
    }
    let prod: u128 = (sa as u128) * (ga as u128);
    let m: u128 = prod / (AMP_SCALE as u128);
    let mag: i64 = m as i64;
    if neg {
        -mag
    } else {
        mag
    }
}

/// The magnitude computed on absolute values matches `mul_fp_spec` up to
/// sign, and stays within sixteen times the sample limit.
proof fn lemma_mul_fp_magnitude(s: int, g: int, sa: int, ga: int)
    requires
        -SAMPLE_LIMIT <= s <= SAMPLE_LIMIT,
        -AMP_LIMIT <= g <= AMP_LIMIT,
        sa == if s >= 0 { s } else { -s },
        ga == if g >= 0 { g } else { -g },
    ensures
        0 <= sa * ga <= SAMPLE_LIMIT * AMP_LIMIT,
        0 <= (sa * ga) / (AMP_SCALE as int) <= 16 * SAMPLE_LIMIT,
        ((s < 0) != (g < 0)) ==> mul_fp_spec(s, g) == -((sa * ga) / (AMP_SCALE as int)),
        !((s < 0) != (g < 0)) ==> mul_fp_spec(s, g) == (sa * ga) / (AMP_SCALE as int),
{
    assert(sa * ga == if (s < 0) != (g < 0) { -(s * g) } else { s * g }) by (nonlinear_arith)
        requires
            sa == if s >= 0 { s } else { -s },
            ga == if g >= 0 { g } else { -g },
    ;
    assert(sa * ga <= SAMPLE_LIMIT * AMP_LIMIT) by (nonlinear_arith)
        requires
            0 <= sa <= SAMPLE_LIMIT,
            0 <= ga <= AMP_LIMIT,
    ;
    assert((sa * ga) / (AMP_SCALE as int) <= (SAMPLE_LIMIT * AMP_LIMIT) / (AMP_SCALE as int)) by {
        vstd::arithmetic::div_mod::lemma_div_is_ordered(
            sa * ga,
            SAMPLE_LIMIT * AMP_LIMIT,
            AMP_SCALE as int,
        );
    }
    assert(sa * ga >= 0) by (nonlinear_arith)
        requires
            sa >= 0,
            ga >= 0,
    ;
    vstd::arithmetic::div_mod::lemma_div_pos_is_pos(sa * ga, AMP_SCALE as int);
}

} // verus!
