//! Decibel-to-amplitude unit mapping in fixed point.
//!
//! Decibel values are carried in thousandths of a dB (`-6 dB` is `-6000`).
//! The mapping computes `10 ^ (db / 20)` as a fixed-point amplitude with
//! scale `AMP_SCALE`, by splitting the exponent into an integral power of
//! ten and a fractional part evaluated bit by bit against a table of
//! constants `10 ^ (2^-i)`. Every multiplication truncates and saturates,
//! so the whole computation is defined exactly on integers.

use vstd::prelude::*;

use crate::{AMP_LIMIT, MAX_DB_M, MIN_DB_M};

verus! {

/// Scale of the fractional-power accumulator: this value stands for 1.0.
pub const FRAC_SCALE: u64 = 1_000_000_000;

/// Saturation ceiling of the fractional-power accumulator (stands for 10.0,
/// the supremum of `10^x` for `x` in `[0, 1)`).
pub const FRAC_SAT: u64 = 10_000_000_000;

/// One span of the integral decomposition: thousandths of a dB per factor
/// of ten in amplitude.
pub const DB_M_PER_DECADE: u64 = 20_000;

/// `10 ^ (2^-i)` at scale `FRAC_SCALE`, for `i` in `1 ..= 17`.
pub open spec fn frac_const(i: int) -> u64 {
    if i == 1 {
        3_162_277_660
    } else if i == 2 {
        1_778_279_410
    } else if i == 3 {
        1_333_521_432
    } else if i == 4 {
        1_154_781_985
    } else if i == 5 {
        1_074_607_828
    } else if i == 6 {
        1_036_632_928
    } else if i == 7 {
        1_018_151_722
    } else if i == 8 {
        1_009_035_045
    } else if i == 9 {
        1_004_507_364
    } else if i == 10 {
        1_002_251_148
    } else if i == 11 {
        1_001_124_941
    } else if i == 12 {
        1_000_562_313
    } else if i == 13 {
        1_000_281_117
    } else if i == 14 {
        1_000_140_549
    } else if i == 15 {
        1_000_070_272
    } else if i == 16 {
        1_000_035_135
    } else {
        1_000_017_567
    }
}

/// The table of `frac_const`, as executable code.
fn frac_const_at(i: usize) -> (c: u64)
    requires
        1 <= i <= 17,
    ensures
        c == frac_const(i as int),
        1_000_000_000 <= c <= 3_162_277_660,
{
    if i == 1 {
        3_162_277_660
    } else if i == 2 {
        1_778_279_410
    } else if i == 3 {
        1_333_521_432
    } else if i == 4 {
        1_154_781_985
    } else if i == 5 {
        1_074_607_828
    } else if i == 6 {
        1_036_632_928
    } else if i == 7 {
        1_018_151_722
    } else if i == 8 {
        1_009_035_045
    } else if i == 9 {
        1_004_507_364
    } else if i == 10 {
        1_002_251_148
    } else if i == 11 {
        1_001_124_941
    } else if i == 12 {
        1_000_562_313
    } else if i == 13 {
        1_000_281_117
    } else if i == 14 {
        1_000_140_549
    } else if i == 15 {
        1_000_070_272
    } else if i == 16 {
        1_000_035_135
    } else {
        1_000_017_567
    }
}

/// One saturating fixed-point multiplication of the accumulator by a table
/// constant.
pub open spec fn sat_mul_step(acc: int, c: int) -> int {
    let m = (acc * c) / (FRAC_SCALE as int);
    if m > FRAC_SAT as int {
        FRAC_SAT as int
    } else {
        m
    }
}

/// The accumulator after processing binary digits `i ..= 17` of the
/// fractional exponent `num / DB_M_PER_DECADE`, starting from `acc`.
pub open spec fn frac_steps(num: int, acc: int, i: int) -> int
    decreases 18 - i,
{
    if i >= 18 {
        acc
    } else {
        let n2 = num * 2;
        if n2 >= DB_M_PER_DECADE as int {
            frac_steps(n2 - DB_M_PER_DECADE as int, sat_mul_step(acc, frac_const(i) as int), i + 1)
        } else {
            frac_steps(n2, acc, i + 1)
        }
    }
}

/// `10 ^ (r / DB_M_PER_DECADE)` at scale `FRAC_SCALE`, for `r` in
/// `[0, DB_M_PER_DECADE)`.
pub open spec fn frac_pow_spec(r: int) -> int {
    frac_steps(r, FRAC_SCALE as int, 1)
}

/// `10 ^ k` for the small exponents the decomposition needs.
pub open spec fn pow10_small(k: int) -> int
    recommends
        0 <= k <= 5,
{
    if k <= 0 {
        1
    } else if k == 1 {
        10
    } else if k == 2 {
        100
    } else if k == 3 {
        1_000
    } else if k == 4 {
        10_000
    } else {
        100_000
    }
}

/// The amplitude `10 ^ (db / 20000)` at scale `AMP_SCALE`, truncating and
/// saturating at `AMP_LIMIT`.
pub open spec fn db_to_amp_spec(db: int) -> int
    recommends
        MIN_DB_M <= db <= MAX_DB_M,
{
    let u = db - MIN_DB_M;
    let q = u / (DB_M_PER_DECADE as int);
    let r = u % (DB_M_PER_DECADE as int);
    let f = frac_pow_spec(r);
    let a = if q >= 5 {
        (f * pow10_small(q - 5)) / 1_000
    } else {
        f / (1_000 * pow10_small(5 - q))
    };
    if a > AMP_LIMIT as int {
        AMP_LIMIT as int
    } else {
        a
    }
}

/// Map a decibel value (thousandths of a dB) to a fixed-point amplitude.
pub fn db_to_amp(db_m: i64) -> (amp: i64)
    requires
        MIN_DB_M <= db_m <= MAX_DB_M,
    ensures
        amp == db_to_amp_spec(db_m as int),
        0 <= amp <= AMP_LIMIT,
{
    let u: u64 = (db_m - MIN_DB_M) as u64;
    let q: u64 = u / DB_M_PER_DECADE;
    let r: u64 = u % DB_M_PER_DECADE;

    let mut acc: u64 = FRAC_SCALE;
    let mut num: u64 = r;
    let mut i: usize = 1;
    while i < 18
        invariant
            1 <= i <= 18,
            FRAC_SCALE <= acc <= FRAC_SAT,
            num < DB_M_PER_DECADE,
            frac_pow_spec(r as int) == frac_steps(num as int, acc as int, i as int),
        decreases 18 - i,
    {
        num = num * 2;
        if num >= DB_M_PER_DECADE {
            num = num - DB_M_PER_DECADE;
            let c: u64 = frac_const_at(i);
            proof {
                lemma_sat_step_in_range(acc as int, c as int);
            }
            let prod: u128 = (acc as u128) * (c as u128);
            let m: u128 = prod / (FRAC_SCALE as u128);
            let mut next: u64 = m as u64;
            if next > FRAC_SAT {
                next = FRAC_SAT;
            }
            acc = next;
        }
        i = i + 1;
    }

    let f: u64 = acc;
    let amp_u: u64 = if q >= 5 {
        let p: u64 = if q == 6 {
            10
        } else {
            1
        };
        (f * p) / 1_000
    } else {
        let d: u64 = 1_000 * small_pow10_at((5 - q) as usize);
        f / d
    };
    let amp_c: u64 = if amp_u > AMP_LIMIT as u64 {
        AMP_LIMIT as u64
    } else {
        amp_u
    };
    amp_c as i64
}

/// `10 ^ k` for `k` in `[0, 5]`, as executable code.
fn small_pow10_at(k: usize) -> (p: u64)
    requires
        k <= 5,
    ensures
        p == pow10_small(k as int),
        1 <= p <= 100_000,
{
    if k == 0 {
        1
    } else if k == 1 {
        10
    } else if k == 2 {
        100
    } else if k == 3 {
        1_000
    } else if k == 4 {
        10_000
    } else {
        100_000
    }
}

/// One saturating step keeps the accumulator inside
/// `[FRAC_SCALE, FRAC_SAT]` and below the unsigned range.
proof fn lemma_sat_step_in_range(acc: int, c: int)
    requires
        FRAC_SCALE <= acc <= FRAC_SAT,
        1_000_000_000 <= c <= 3_162_277_660,
    ensures
        FRAC_SCALE <= sat_mul_step(acc, c) <= FRAC_SAT,
        0 <= acc * c <= 31_622_776_600_000_000_000,
        0 <= (acc * c) / (FRAC_SCALE as int) <= 0x8_0000_0000_0000_0000,
{
    assert(acc * c <= 31_622_776_600_000_000_000) by (nonlinear_arith)
        requires
            0 <= acc <= FRAC_SAT,
            0 <= c <= 3_162_277_660,
    ;
    assert(acc * c >= FRAC_SCALE * FRAC_SCALE) by (nonlinear_arith)
        requires
            acc >= FRAC_SCALE,
            c >= FRAC_SCALE,
    ;
    vstd::arithmetic::div_mod::lemma_div_is_ordered(
        (FRAC_SCALE * FRAC_SCALE) as int,
        acc * c,
        FRAC_SCALE as int,
    );
    vstd::arithmetic::div_mod::lemma_div_is_ordered(
        acc * c,
        31_622_776_600_000_000_000,
        FRAC_SCALE as int,
    );
}

/// A target of 0 dB maps to unity gain, exactly.
pub proof fn lemma_zero_db_is_unity()
    ensures
        db_to_amp_spec(0) == crate::AMP_SCALE as int,
{
    reveal_with_fuel(frac_steps, 19);
    assert(frac_pow_spec(0) == FRAC_SCALE as int);
    assert(db_to_amp_spec(0) == crate::AMP_SCALE as int);
}

} // verus!
