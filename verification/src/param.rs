//! Smoothed parameters: a control-side handle publishes targets through an
//! atomic cell; the audio-side owner turns target changes into click-free
//! per-sample ramps, one block at a time.
//!
//! The two halves share exactly one cell. Writes are wait-free stores, reads
//! are plain loads; the audio thread sees the most recently published target
//! at the moment it samples the cell, and re-aims its ramp from the value it
//! has currently reached whenever the target moved.

use std::sync::atomic::AtomicI64;
use std::sync::atomic::Ordering;
use std::sync::Arc;
use vstd::prelude::*;

use crate::db::db_to_amp;
use crate::db::db_to_amp_spec;
use crate::fixed::clamp_i64;
use crate::fixed::clamp_spec;
use vstd::pervasive::VecAdditionalExecFns;
use crate::ramp::lemma_ramp_endpoints;
use crate::ramp::lemma_ramp_monotonic;
use crate::ramp::ramp_value;
use crate::ramp::ramp_value_at;
use crate::ramp::RAMP_LEN_MAX;
use crate::{AMP_LIMIT, AMP_SCALE, MAX_BLOCK_SIZE, MAX_DB_M, MIN_DB_M};

verus! {

/// Highest sample rate the engine supports, in hertz.
pub const MAX_SAMPLE_RATE: u32 = 1_000_000;

/// Longest smoothing time constant the engine supports, in milliseconds.
pub const MAX_SMOOTH_MS: u32 = 60_000;

/// A sample rate in hertz.
#[derive(Clone, Copy, Debug, PartialEq, Eq, Structural)]
pub struct SampleRate(pub u32);

/// The unit a parameter's raw values are given in, which fixes the gradient
/// mapping from raw values to amplitudes.
#[derive(Clone, Copy, Debug, PartialEq, Eq, Structural)]
pub enum Unit {
    /// Raw values are thousandths of a decibel; the mapping is exponential.
    Decibels,
    /// Raw values are already fixed-point amplitudes; the mapping is the
    /// identity.
    Generic,
}

/// A configuration error, detected at construction time.
#[derive(Clone, Copy, Debug, PartialEq, Eq, Structural)]
pub enum ParamError {
    /// The lower bound exceeds the upper bound.
    InvalidBounds,
    /// The bounds leave the range the unit mapping supports.
    UnsupportedRange,
    /// The sample rate is zero or beyond `MAX_SAMPLE_RATE`.
    InvalidSampleRate,
    /// The smoothing time is zero or beyond `MAX_SMOOTH_MS`.
    InvalidSmoothing,
}

/// The gradient mapping from a raw value to a fixed-point amplitude.
pub open spec fn map_unit_spec(unit: Unit, v: int) -> int {
    match unit {
        Unit::Decibels => db_to_amp_spec(v),
        Unit::Generic => v,
    }
}

/// Whether `[min, max]` is an ordered pair inside the unit's supported
/// domain.
pub open spec fn bounds_ok(unit: Unit, min: int, max: int) -> bool {
    &&& min <= max
    &&& match unit {
        Unit::Decibels => MIN_DB_M <= min && max <= MAX_DB_M,
        Unit::Generic => -AMP_LIMIT <= min && max <= AMP_LIMIT,
    }
}

/// The configuration error a parameter construction reports, if any; errors
/// are checked in this order.
pub open spec fn config_error(
    unit: Unit,
    min: int,
    max: int,
    smooth_ms: u32,
    rate: u32,
) -> Option<ParamError> {
    if min > max {
        Some(ParamError::InvalidBounds)
    } else if !bounds_ok(unit, min, max) {
        Some(ParamError::UnsupportedRange)
    } else if rate == 0 || rate > MAX_SAMPLE_RATE {
        Some(ParamError::InvalidSampleRate)
    } else if smooth_ms == 0 || smooth_ms > MAX_SMOOTH_MS {
        Some(ParamError::InvalidSmoothing)
    } else {
        None
    }
}

/// The ramp length, in samples, of a smoothing time constant at a sample
/// rate: the number of samples in `smooth_ms` milliseconds, rounded up.
pub open spec fn ramp_len_spec(smooth_ms: u32, rate: u32) -> int {
    ((smooth_ms * rate) + 999) / 1000
}

/// The abstract state of a smoothed parameter.
pub struct ParamModel {
    /// The unit raw values are given in.
    pub unit: Unit,
    /// Lower bound on targets, in the raw domain.
    pub min: i64,
    /// Upper bound on targets, in the raw domain.
    pub max: i64,
    /// Number of samples a full ramp takes.
    pub ramp_len: u32,
    /// Amplitude the current ramp started from.
    pub start: i64,
    /// Amplitude the current ramp is aimed at.
    pub target: i64,
    /// Steps of the current ramp already consumed.
    pub pos: u32,
    /// The per-sample amplitudes produced for the most recent block.
    pub out: Seq<i64>,
}

/// Well-formedness of a parameter's state.
pub open spec fn param_wf(m: ParamModel) -> bool {
    &&& bounds_ok(m.unit, m.min as int, m.max as int)
    &&& 1 <= m.ramp_len <= RAMP_LEN_MAX
    &&& m.pos <= m.ramp_len
    &&& -AMP_LIMIT <= m.start <= AMP_LIMIT
    &&& -AMP_LIMIT <= m.target <= AMP_LIMIT
    &&& m.out.len() == MAX_BLOCK_SIZE
    &&& forall|k: int| 0 <= k < m.out.len() ==> -AMP_LIMIT <= #[trigger] m.out[k] <= AMP_LIMIT
}

/// Where a block restarts its ramp from, once a freshly sampled target `t`
/// is taken into account: an unchanged target keeps the running ramp; a
/// changed one re-aims from the value the ramp has currently reached.
pub open spec fn aim_start(m: ParamModel, t: i64) -> int {
    if t == m.target {
        m.start as int
    } else {
        ramp_value(m.start as int, m.target as int, m.ramp_len as int, m.pos as int)
    }
}

/// The ramp position a block starts from, given a freshly sampled target.
pub open spec fn aim_pos(m: ParamModel, t: i64) -> int {
    if t == m.target {
        m.pos as int
    } else {
        0
    }
}

/// The gain of sample `k` of a block, for a parameter in state `m` that
/// sampled target `t` at the head of the block.
pub open spec fn block_gain(m: ParamModel, t: i64, k: int) -> int {
    ramp_value(
        aim_start(m, t),
        t as int,
        m.ramp_len as int,
        vstd::math::min(aim_pos(m, t) + k + 1, m.ramp_len as int),
    )
}

/// The audio-side owner of a smoothed parameter. Exactly one consumer reads
/// it, once per block; reading advances the ramp position and is otherwise
/// free of side effects.
pub struct Param {
    unit: Unit,
    min_raw: i64,
    max_raw: i64,
    ramp_len: u32,
    start: i64,
    target: i64,
    pos: u32,
    buf: Vec<i64>,
    cell: Arc<AtomicI64>,
}

impl View for Param {
    type V = ParamModel;

    closed spec fn view(&self) -> ParamModel {
        ParamModel {
            unit: self.unit,
            min: self.min_raw,
            max: self.max_raw,
            ramp_len: self.ramp_len,
            start: self.start,
            target: self.target,
            pos: self.pos,
            out: self.buf@,
        }
    }
}

/// The abstract state of a control-side handle: the configuration it clamps
/// and maps raw values with.
pub struct ParamHandleModel {
    /// The unit raw values are given in.
    pub unit: Unit,
    /// Lower bound on targets, in the raw domain.
    pub min: i64,
    /// Upper bound on targets, in the raw domain.
    pub max: i64,
}

/// Well-formedness of a handle's state.
pub open spec fn handle_wf(m: ParamHandleModel) -> bool {
    bounds_ok(m.unit, m.min as int, m.max as int)
}

/// The control-side handle of a smoothed parameter. Any number of control
/// threads may publish targets through it; publishing never blocks and
/// never allocates.
pub struct ParamHandle {
    unit: Unit,
    min_raw: i64,
    max_raw: i64,
    cell: Arc<AtomicI64>,
}

impl View for ParamHandle {
    type V = ParamHandleModel;

    closed spec fn view(&self) -> ParamHandleModel {
        ParamHandleModel { unit: self.unit, min: self.min_raw, max: self.max_raw }
    }
}

/// Relies on `std::sync::atomic::AtomicI64::load` (through `Arc`'s deref):
/// returns the most recently published value; nothing is assumed about
/// which write that was.
#[verifier::external_body]
fn cell_load(cell: &Arc<AtomicI64>) -> i64 {
    cell.load(Ordering::Acquire)
}

/// Relies on `std::sync::atomic::AtomicI64::store` (through `Arc`'s deref):
/// publishes `v` as the newest value of the cell, wait-free.
#[verifier::external_body]
fn cell_store(cell: &Arc<AtomicI64>, v: i64) {
    cell.store(v, Ordering::Release);
}

/// Relies on `std::sync::Arc::clone`: the clone refers to the same cell.
#[verifier::external_body]
fn cell_share(cell: &Arc<AtomicI64>) -> (r: Arc<AtomicI64>)
    ensures
        r == *cell,
{
    Arc::clone(cell)
}

impl ParamHandle {
    /// The target amplitude a raw value publishes: the raw value clamped to
    /// the handle's bounds, then mapped through the unit's gradient.
    pub fn target_for(&self, raw: i64) -> (t: i64)
        requires
            handle_wf(self@),
        ensures
            t == map_unit_spec(self@.unit, clamp_spec(raw as int, self@.min as int, self@.max as int)),
            -AMP_LIMIT <= t <= AMP_LIMIT,
    {
        let clamped: i64 = clamp_i64(raw, self.min_raw, self.max_raw);
        match self.unit {
            Unit::Decibels => db_to_amp(clamped),
            Unit::Generic => clamped,
        }
    }

    /// The raw value a normalized knob position stands for: `n` at scale
    /// `AMP_SCALE` is clamped to `[0, 1]` and mapped linearly onto
    /// `[min, max]`.
    pub fn raw_for_normalized(&self, n: i64) -> (raw: i64)
        requires
            handle_wf(self@),
        ensures
            raw == self@.min + ((self@.max - self@.min) * clamp_spec(n as int, 0, AMP_SCALE as int))
                / (AMP_SCALE as int),
            self@.min <= raw <= self@.max,
    {
        let nc: i64 = clamp_i64(n, 0, AMP_SCALE);
        let span: i64 = self.max_raw - self.min_raw;
        proof {
            assert(0 <= span * nc <= span * AMP_SCALE) by (nonlinear_arith)
                requires
                    0 <= span <= 32_000_000,
                    0 <= nc <= AMP_SCALE,
            ;
            vstd::arithmetic::div_mod::lemma_div_is_ordered(
                span * nc,
                span * (AMP_SCALE as int),
                AMP_SCALE as int,
            );
            vstd::arithmetic::div_mod::lemma_div_multiples_vanish(span as int, AMP_SCALE as int);
            assert(span * AMP_SCALE == AMP_SCALE * span) by (nonlinear_arith);
            vstd::arithmetic::div_mod::lemma_div_pos_is_pos(span * nc, AMP_SCALE as int);
        }
        let travelled: i64 = (span * nc) / AMP_SCALE;
        self.min_raw + travelled
    }

    /// Clamp a raw value to the bounds, map it through the unit's gradient,
    /// and publish it to the audio side. Wait-free; never rejects a value.
    ///
    /// The publication itself happens in the shared atomic cell, outside
    /// what contracts can speak of: the published amplitude is exactly
    /// `target_for(raw)`.
    pub fn set(&self, raw: i64)
        requires
            handle_wf(self@),
    {
        let t: i64 = self.target_for(raw);
        cell_store(&self.cell, t);
    }

    /// Publish a normalized knob position: `raw_for_normalized`, then `set`.
    pub fn set_normalized(&self, n: i64)
        requires
            handle_wf(self@),
    {
        let raw: i64 = self.raw_for_normalized(n);
        self.set(raw);
    }

    /// The unit this handle's raw values are given in.
    pub fn unit(&self) -> (u: Unit)
        ensures
            u == self@.unit,
    {
        self.unit
    }

    /// The lower bound targets are clamped to, in the raw domain.
    pub fn min_value(&self) -> (v: i64)
        ensures
            v == self@.min,
    {
        self.min_raw
    }

    /// The upper bound targets are clamped to, in the raw domain.
    pub fn max_value(&self) -> (v: i64)
        ensures
            v == self@.max,
    {
        self.max_raw
    }
}

impl Param {
    /// Build a parameter and its control handle from an initial raw value.
    /// The initial value is clamped like any published target; the ramp
    /// starts settled on it. Invalid configuration is rejected here, before
    /// the audio thread ever sees the parameter.
    pub fn from_value(
        value: i64,
        min: i64,
        max: i64,
        unit: Unit,
        smooth_ms: u32,
        sample_rate: SampleRate,
    ) -> (r: Result<(Param, ParamHandle), ParamError>)
        ensures
            match config_error(unit, min as int, max as int, smooth_ms, sample_rate.0) {
                Some(e) => r == Err::<(Param, ParamHandle), ParamError>(e),
                None => match r {
                    Ok((p, h)) => {
                        &&& param_wf(p@)
                        &&& handle_wf(h@)
                        &&& p@.unit == unit
                        &&& p@.min == min
                        &&& p@.max == max
                        &&& p@.ramp_len as int == ramp_len_spec(smooth_ms, sample_rate.0)
                        &&& p@.target as int == map_unit_spec(
                            unit,
                            clamp_spec(value as int, min as int, max as int),
                        )
                        &&& p@.start == p@.target
                        &&& p@.pos == p@.ramp_len
                        &&& h@.unit == unit
                        &&& h@.min == min
                        &&& h@.max == max
                    },
                    Err(_) => false,
                },
            },
    {
        if min > max {
            return Err(ParamError::InvalidBounds);
        }
        let range_ok: bool = match unit {
            Unit::Decibels => MIN_DB_M <= min && max <= MAX_DB_M,
            Unit::Generic => -AMP_LIMIT <= min && max <= AMP_LIMIT,
        };
        if !range_ok {
            return Err(ParamError::UnsupportedRange);
        }
        if sample_rate.0 == 0 || sample_rate.0 > MAX_SAMPLE_RATE {
            return Err(ParamError::InvalidSampleRate);
        }
        if smooth_ms == 0 || smooth_ms > MAX_SMOOTH_MS {
            return Err(ParamError::InvalidSmoothing);
        }

        proof {
            assert(1 <= smooth_ms * sample_rate.0 <= 60_000_000_000) by (nonlinear_arith)
                requires
                    1 <= smooth_ms <= MAX_SMOOTH_MS,
                    1 <= sample_rate.0 <= MAX_SAMPLE_RATE,
            ;
        }
        let ramp_len: u32 = (((smooth_ms as u64) * (sample_rate.0 as u64) + 999) / 1000) as u32;
        proof {
            assert(1 <= ramp_len_spec(smooth_ms, sample_rate.0) <= RAMP_LEN_MAX);
        }

        let clamped: i64 = clamp_i64(value, min, max);
        let target: i64 = match unit {
            Unit::Decibels => db_to_amp(clamped),
            Unit::Generic => clamped,
        };

        let cell: Arc<AtomicI64> = Arc::new(AtomicI64::new(target));
        let handle_cell: Arc<AtomicI64> = cell_share(&cell);

        let mut buf: Vec<i64> = Vec::new();
        let mut k: usize = 0;
        while k < MAX_BLOCK_SIZE
            invariant
                k <= MAX_BLOCK_SIZE,
                buf@.len() == k,
                -AMP_LIMIT <= target <= AMP_LIMIT,
                forall|j: int| 0 <= j < k ==> #[trigger] buf@[j] == target,
            decreases MAX_BLOCK_SIZE - k,
        {
            buf.push(target);
            k = k + 1;
        }

        let param = Param {
            unit,
            min_raw: min,
            max_raw: max,
            ramp_len,
            start: target,
            target,
            pos: ramp_len,
            buf,
            cell,
        };
        let handle = ParamHandle { unit, min_raw: min, max_raw: max, cell: handle_cell };
        Ok((param, handle))
    }

    /// The per-sample amplitudes produced for the most recent block.
    pub fn values(&self) -> (r: &Vec<i64>)
        ensures
            r@ == self@.out,
    {
        &self.buf
    }

    /// Whether the ramp has consumed all its steps and rests on its
    /// target.
    pub fn is_settled(&self) -> (r: bool)
        ensures
            r == (self@.pos == self@.ramp_len),
    {
        self.pos == self.ramp_len
    }

    /// The number of samples a full ramp takes at this configuration.
    pub fn ramp_frames(&self) -> (n: u32)
        ensures
            n == self@.ramp_len,
    {
        self.ramp_len
    }

    /// Advance the ramp toward target `t` and fill the first `frames`
    /// entries of the block buffer with the interpolated amplitudes.
    /// Returns whether the parameter is still smoothing this block.
    pub fn smooth_toward(&mut self, t: i64, frames: usize) -> (smoothing: bool)
        requires
            param_wf(old(self)@),
            -AMP_LIMIT <= t <= AMP_LIMIT,
            frames <= MAX_BLOCK_SIZE,
        ensures
            param_wf(final(self)@),
            final(self)@.unit == old(self)@.unit,
            final(self)@.min == old(self)@.min,
            final(self)@.max == old(self)@.max,
            final(self)@.ramp_len == old(self)@.ramp_len,
            final(self)@.target == t,
            final(self)@.start == aim_start(old(self)@, t),
            final(self)@.pos as int == vstd::math::min(
                aim_pos(old(self)@, t) + frames,
                old(self)@.ramp_len as int,
            ),
            forall|k: int|
                0 <= k < frames ==> (#[trigger] final(self)@.out[k]) as int == block_gain(old(self)@, t, k),
            forall|k: int|
                frames <= k < MAX_BLOCK_SIZE ==> #[trigger] final(self)@.out[k] == old(self)@.out[k],
            smoothing == (aim_pos(old(self)@, t) < old(self)@.ramp_len),
    {
        if t != self.target {
            let cur: i64 = ramp_value_at(self.start, self.target, self.ramp_len, self.pos);
            self.start = cur;
            self.target = t;
            self.pos = 0;
        }
        let smoothing: bool = self.pos < self.ramp_len;

        let ghost m0 = old(self)@;
        let ghost st = aim_start(m0, t);
        let ghost p0 = aim_pos(m0, t);

        let mut k: usize = 0;
        while k < frames
            invariant
                m0 == old(self)@,
                param_wf(m0),
                st == aim_start(m0, t),
                p0 == aim_pos(m0, t),
                -AMP_LIMIT <= t <= AMP_LIMIT,
                frames <= MAX_BLOCK_SIZE,
                k <= frames,
                self@.unit == m0.unit,
                self@.min == m0.min,
                self@.max == m0.max,
                self@.ramp_len == m0.ramp_len,
                self@.target == t,
                self@.start == st,
                -AMP_LIMIT <= self@.start <= AMP_LIMIT,
                self@.pos as int == vstd::math::min(p0 + k, m0.ramp_len as int),
                self@.out.len() == MAX_BLOCK_SIZE,
                forall|j: int| 0 <= j < k ==> (#[trigger] self@.out[j]) as int == block_gain(m0, t, j),
                forall|j: int| 0 <= j < k ==> -AMP_LIMIT <= #[trigger] self@.out[j] <= AMP_LIMIT,
                forall|j: int| k <= j < MAX_BLOCK_SIZE ==> #[trigger] self@.out[j] == m0.out[j],
            decreases frames - k,
        {
            if self.pos < self.ramp_len {
                self.pos = self.pos + 1;
            }
            let v: i64 = ramp_value_at(self.start, self.target, self.ramp_len, self.pos);
            self.buf.set(k, v);
            k = k + 1;
        }
        smoothing
    }

    /// Sample the most recently published target and produce this block's
    /// amplitudes: the block-level entry point, called at most once per
    /// block by the owning node. The sampled target is whatever the control
    /// side published last; everything that follows holds for any such
    /// value.
    pub fn smoothed(&mut self, frames: usize) -> (smoothing: bool)
        requires
            param_wf(old(self)@),
            frames <= MAX_BLOCK_SIZE,
        ensures
            param_wf(final(self)@),
            final(self)@.unit == old(self)@.unit,
            final(self)@.min == old(self)@.min,
            final(self)@.max == old(self)@.max,
            final(self)@.ramp_len == old(self)@.ramp_len,
            final(self)@.start == aim_start(old(self)@, final(self)@.target),
            final(self)@.pos as int == vstd::math::min(
                aim_pos(old(self)@, final(self)@.target) + frames,
                old(self)@.ramp_len as int,
            ),
            forall|k: int|
                0 <= k < frames ==> (#[trigger] final(self)@.out[k]) as int == block_gain(
                    old(self)@,
                    final(self)@.target,
                    k,
                ),
            forall|k: int|
                frames <= k < MAX_BLOCK_SIZE ==> #[trigger] final(self)@.out[k] == old(self)@.out[k],
            smoothing == (aim_pos(old(self)@, final(self)@.target) < old(self)@.ramp_len),
    {
        let loaded: i64 = cell_load(&self.cell);
        let t: i64 = clamp_i64(loaded, -AMP_LIMIT, AMP_LIMIT);
        self.smooth_toward(t, frames)
    }
}


/// Idempotent settle: if the sampled target is unchanged and the ramp has
/// already completed, every gain of the block equals the target, and the
/// block reports "not smoothing". Together with the gain nodes' `process`
/// contract this gives `output[k] == mul_fp_spec(input[k], target)` for
/// every sample of such a block, and `lemma_zero_db_is_unity` pins the
/// constant to exactly unity for a 0 dB target.
pub proof fn lemma_idempotent_settle(m: ParamModel, k: int)
    requires
        param_wf(m),
        m.pos == m.ramp_len,
        0 <= k,
    ensures
        block_gain(m, m.target, k) == m.target,
        !(aim_pos(m, m.target) < m.ramp_len),
{
    lemma_ramp_endpoints(aim_start(m, m.target), m.target as int, m.ramp_len as int);
}

/// Ramp completion: the ramp takes exactly `ramp_len` samples — fixed at
/// construction as `ramp_len_spec`, the smoothing time in samples rounded
/// up — and any sample at least that many steps after the ramp was aimed
/// equals the target exactly (fixed-point, so convergence is exact rather
/// than within a tolerance). A block that consumes the remaining steps
/// leaves the ramp at its end, so every later block with an unchanged
/// target reports "not smoothing".
pub proof fn lemma_ramp_completion(m: ParamModel, t: i64, k: int, frames: int)
    requires
        param_wf(m),
        -AMP_LIMIT <= t <= AMP_LIMIT,
        0 <= k,
        aim_pos(m, t) + k + 1 >= m.ramp_len,
    ensures
        block_gain(m, t, k) == t,
        aim_pos(m, t) + frames >= m.ramp_len ==> vstd::math::min(
            aim_pos(m, t) + frames,
            m.ramp_len as int,
        ) == m.ramp_len as int,
{
    lemma_ramp_endpoints(aim_start(m, t), t as int, m.ramp_len as int);
}

/// Bounds clamp: a raw value below the lower bound is stored as exactly
/// the lower bound, one above the upper bound as exactly the upper bound,
/// and an in-range value is stored unchanged; the stored target never
/// reflects an out-of-range input. `target_for` publishes precisely the
/// unit mapping of this clamped value.
pub proof fn lemma_bounds_clamp(unit: Unit, min: int, max: int, raw: int)
    requires
        min <= max,
    ensures
        raw < min ==> clamp_spec(raw, min, max) == min,
        raw > max ==> clamp_spec(raw, min, max) == max,
        min <= raw <= max ==> clamp_spec(raw, min, max) == raw,
        min <= clamp_spec(raw, min, max) <= max,
        raw < min ==> map_unit_spec(unit, clamp_spec(raw, min, max)) == map_unit_spec(unit, min),
        raw > max ==> map_unit_spec(unit, clamp_spec(raw, min, max)) == map_unit_spec(unit, max),
{
}


/// Monotonic interpolation: within one block, the gains a parameter
/// produces move monotonically from the ramp's start value toward the
/// sampled target — upward when the target lies above the start, downward
/// when it lies below — and never overshoot it.
pub proof fn lemma_block_gain_monotonic(m: ParamModel, t: i64, k1: int, k2: int)
    requires
        param_wf(m),
        0 <= k1 <= k2,
    ensures
        t >= aim_start(m, t) ==> block_gain(m, t, k1) <= block_gain(m, t, k2) <= t,
        t < aim_start(m, t) ==> t <= block_gain(m, t, k2) <= block_gain(m, t, k1),
{
    let st = aim_start(m, t);
    let len = m.ramp_len as int;
    let j1 = vstd::math::min(aim_pos(m, t) + k1 + 1, len);
    let j2 = vstd::math::min(aim_pos(m, t) + k2 + 1, len);
    lemma_ramp_monotonic(st, t as int, len, j1, j2);
    lemma_ramp_monotonic(st, t as int, len, j2, len);
    lemma_ramp_endpoints(st, t as int, len);
}

} // verus!
