//! Real-time audio engine core: fixed-size block processing nodes, smoothed
//! parameters with a lock-free control/audio split, and the runtime borrow
//! discipline for shared block buffers.
//!
//! All amplitudes and samples are fixed-point integers: an amplitude of
//! `AMP_SCALE` stands for unity gain, and a sample of `AMP_SCALE` stands for
//! a full-scale value of one.

use vstd::prelude::*;

pub mod borrow;
pub mod buffer;
pub mod cpu;
pub mod db;
pub mod fixed;
pub mod gain;
pub mod graph;
pub mod param;
pub mod ramp;

verus! {

/// Largest number of frames a block buffer can hold; every buffer is
/// allocated at exactly this capacity.
pub const MAX_BLOCK_SIZE: usize = 256;

/// Fixed-point scale: this value stands for 1.0 (unity gain, full scale).
pub const AMP_SCALE: i64 = 1_000_000;

/// Every amplitude handled by the engine lies in `[-AMP_LIMIT, AMP_LIMIT]`
/// (sixteen times unity), which keeps all kernel arithmetic in range.
pub const AMP_LIMIT: i64 = 16_000_000;

/// Bound on the magnitude of an input sample accepted by the gain kernels.
pub const SAMPLE_LIMIT: i64 = 0x100_0000_0000;

/// Lowest decibel value the unit mapping supports, in thousandths of a dB.
pub const MIN_DB_M: i64 = -100_000;

/// Highest decibel value the unit mapping supports, in thousandths of a dB.
pub const MAX_DB_M: i64 = 24_000;

} // verus!
