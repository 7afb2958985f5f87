//! Linear interpolation of a parameter from a start value to a target over a
//! fixed number of steps, in the mapped (post-gradient) amplitude domain.
//!
//! A ramp of length `len` passes through `len + 1` values: step `0` is the
//! start, step `len` is exactly the target, and the value at every step in
//! between is the truncated linear interpolation of the two.

use vstd::prelude::*;

use crate::AMP_LIMIT;

verus! {

/// Largest ramp length the engine can configure: the longest smoothing time
/// at the highest sample rate.
pub const RAMP_LEN_MAX: u32 = 60_000_000;

/// The interpolated value after `j` of `len` steps from `start` to `target`
/// (division truncates toward the start, so the ramp is monotonic and lands
/// exactly on the target at step `len`).
pub open spec fn ramp_value(start: int, target: int, len: int, j: int) -> int
    recommends
        1 <= len,
        0 <= j <= len,
{
    if target >= start {
        start + ((target - start) * j) / len
    } else {
        start - ((start - target) * j) / len
    }
}

/// A ramp starts at its start value and ends exactly on its target.
pub proof fn lemma_ramp_endpoints(start: int, target: int, len: int)
    requires
        1 <= len,
    ensures
        ramp_value(start, target, len, 0) == start,
        ramp_value(start, target, len, len) == target,
{
    if target >= start {
        vstd::arithmetic::div_mod::lemma_div_multiples_vanish(target - start, len);
        assert((target - start) * len == len * (target - start)) by (nonlinear_arith);
    } else {
        vstd::arithmetic::div_mod::lemma_div_multiples_vanish(start - target, len);
        assert((start - target) * len == len * (start - target)) by (nonlinear_arith);
    }
}

/// A ramp moves monotonically from its start value toward its target.
pub proof fn lemma_ramp_monotonic(start: int, target: int, len: int, j1: int, j2: int)
    requires
        1 <= len,
        0 <= j1 <= j2 <= len,
    ensures
        target >= start ==> ramp_value(start, target, len, j1) <= ramp_value(
            start,
            target,
            len,
            j2,
        ),
        target < start ==> ramp_value(start, target, len, j1) >= ramp_value(start, target, len, j2),
{
    if target >= start {
        assert((target - start) * j1 <= (target - start) * j2) by (nonlinear_arith)
            requires
                target - start >= 0,
                j1 <= j2,
        ;
        vstd::arithmetic::div_mod::lemma_div_is_ordered(
            (target - start) * j1,
            (target - start) * j2,
            len,
        );
    } else {
        assert((start - target) * j1 <= (start - target) * j2) by (nonlinear_arith)
            requires
                start - target >= 0,
                j1 <= j2,
        ;
        vstd::arithmetic::div_mod::lemma_div_is_ordered(
            (start - target) * j1,
            (start - target) * j2,
            len,
        );
    }
}

/// Every value of a ramp lies between its start value and its target.
pub proof fn lemma_ramp_in_range(start: int, target: int, len: int, j: int)
    requires
        1 <= len,
        0 <= j <= len,
    ensures
        target >= start ==> start <= ramp_value(start, target, len, j) <= target,
        target < start ==> target <= ramp_value(start, target, len, j) <= start,
{
    lemma_ramp_endpoints(start, target, len);
    lemma_ramp_monotonic(start, target, len, 0, j);
    lemma_ramp_monotonic(start, target, len, j, len);
}

/// Compute one interpolated ramp value.
pub fn ramp_value_at(start: i64, target: i64, len: u32, j: u32) -> (v: i64)
    requires
        1 <= len <= RAMP_LEN_MAX,
        j <= len,
        -AMP_LIMIT <= start <= AMP_LIMIT,
        -AMP_LIMIT <= target <= AMP_LIMIT,
    ensures
        v == ramp_value(start as int, target as int, len as int, j as int),
        -AMP_LIMIT <= v <= AMP_LIMIT,
{
    proof {
        lemma_ramp_in_range(start as int, target as int, len as int, j as int);
        assert((if target >= start {
            (target - start) * (j as i64)
        } else {
            (start - target) * (j as i64)
        }) <= 32_000_000 * (RAMP_LEN_MAX as int)) by (nonlinear_arith)
            requires
                -AMP_LIMIT <= start <= AMP_LIMIT,
                -AMP_LIMIT <= target <= AMP_LIMIT,
                0 <= j <= RAMP_LEN_MAX as int,
        ;
        assert((if target >= start {
            (target - start) * (j as i64)
        } else {
            (start - target) * (j as i64)
        }) >= 0) by (nonlinear_arith)
            requires
                0 <= j,
        ;
    }
    if target >= start {
        let delta: i64 = target - start;
        let travelled: i64 = (delta * (j as i64)) / (len as i64);
        start + travelled
    } else {
        let delta: i64 = start - target;
        let travelled: i64 = (delta * (j as i64)) / (len as i64);
        start - travelled
    }
}

} // verus!
