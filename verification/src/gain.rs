//! Gain nodes: the canonical DSP node, mono and stereo.
//!
//! A gain node multiplies its input by a smoothed, decibel-mapped gain
//! factor. Each block it queries its parameter once; if the parameter is
//! still ramping it applies a per-sample gain, otherwise a single constant
//! (a broadcast value loads more efficiently than a ramp buffer that
//! happens to be constant). The wide kernel strides over the block in
//! vector-width chunks and processes the final partial chunk as a full
//! chunk over the buffer's backing capacity — trailing entries beyond the
//! block's frame count are allocated but their content is don't-care, and
//! no downstream consumer may read past the frame count.

use vstd::prelude::*;

use crate::buffer::{samples_bounded, MonoAudioBlockBuffer, StereoAudioBlockBuffer};
use crate::cpu::AVX_VECTOR_WIDTH;
use crate::fixed::{mul_fp, mul_fp_spec};
use crate::graph::{AudioGraphNode, ProcInfo, TimelineTransport};
use crate::param::{
    aim_pos, block_gain, config_error, param_wf, handle_wf, Param, ParamError, ParamHandle,
    SampleRate, Unit,
};
use crate::ramp::lemma_ramp_endpoints;
use crate::{AMP_LIMIT, MAX_BLOCK_SIZE};

verus! {

/// Smoothing time constant shared by the generic nodes, in milliseconds.
pub const SMOOTH_MS: u32 = 10;

/// The control-side handles of a gain node: one parameter, the gain in
/// decibels.
pub struct GainNodeHandle {
    /// Publishes gain targets, in thousandths of a decibel.
    pub gain_db: ParamHandle,
}

/// Index one past the last sample the wide kernel writes: the block's
/// frame count rounded up to a whole vector width, capped at the buffer
/// capacity.
pub open spec fn chunk_end(frames: int) -> int {
    vstd::math::min(
        ((frames + AVX_VECTOR_WIDTH - 1) / AVX_VECTOR_WIDTH as int) * AVX_VECTOR_WIDTH as int,
        MAX_BLOCK_SIZE as int,
    )
}

/// The wide kernel covers at least the whole block and never leaves the
/// buffer.
pub proof fn lemma_chunk_end_bounds(frames: int)
    requires
        0 <= frames <= MAX_BLOCK_SIZE,
    ensures
        frames <= chunk_end(frames) <= MAX_BLOCK_SIZE,
        chunk_end(frames) % (AVX_VECTOR_WIDTH as int) == 0,
{
    let w = AVX_VECTOR_WIDTH as int;
    vstd::arithmetic::div_mod::lemma_fundamental_div_mod(frames + w - 1, w);
    assert(((frames + w - 1) / w) * w == w * ((frames + w - 1) / w)) by (nonlinear_arith);
    vstd::arithmetic::div_mod::lemma_mod_multiples_basic((frames + w - 1) / w, w);
}

/// A block of per-sample gains the kernels accept: one value per buffer
/// slot, each within the amplitude limit, and constant over the block when
/// the parameter is settled.
pub open spec fn gains_ok(gains: Seq<i64>, frames: int, smoothing: bool) -> bool {
    &&& gains.len() == MAX_BLOCK_SIZE
    &&& forall|k: int| 0 <= k < gains.len() ==> -AMP_LIMIT <= #[trigger] gains[k] <= AMP_LIMIT
    &&& !smoothing ==> forall|k: int| 0 <= k < frames ==> #[trigger] gains[k] == gains[0]
}

/// Scalar reference kernel, mono: one multiply per sample. When the
/// parameter is settled, a single broadcast gain is used instead of the
/// ramp buffer.
pub fn mono_gain_scalar(
    src: &MonoAudioBlockBuffer,
    dst: &mut MonoAudioBlockBuffer,
    gains: &Vec<i64>,
    frames: usize,
    smoothing: bool,
)
    requires
        src.wf(),
        old(dst).wf(),
        samples_bounded(src@),
        gains_ok(gains@, frames as int, smoothing),
        frames <= MAX_BLOCK_SIZE,
    ensures
        final(dst).wf(),
        forall|k: int|
            0 <= k < frames ==> (#[trigger] final(dst)@[k]) as int == mul_fp_spec(
                src@[k] as int,
                gains@[k] as int,
            ),
        forall|k: int| frames <= k < MAX_BLOCK_SIZE ==> final(dst)@[k] == old(dst)@[k],
{
    if smoothing {
        let mut i: usize = 0;
        while i < frames
            invariant
                src.wf(),
                dst.wf(),
                samples_bounded(src@),
                gains_ok(gains@, frames as int, smoothing),
                i <= frames <= MAX_BLOCK_SIZE,
                forall|k: int|
                    0 <= k < i ==> (#[trigger] dst@[k]) as int == mul_fp_spec(
                        src@[k] as int,
                        gains@[k] as int,
                    ),
                forall|k: int| i <= k < MAX_BLOCK_SIZE ==> dst@[k] == old(dst)@[k],
            decreases frames - i,
        {
            let v: i64 = mul_fp(src.get(i), gains[i]);
            dst.set(i, v);
            i = i + 1;
        }
    } else {
        let gain: i64 = gains[0];
        let mut i: usize = 0;
        while i < frames
            invariant
                src.wf(),
                dst.wf(),
                samples_bounded(src@),
                gains_ok(gains@, frames as int, smoothing),
                !smoothing,
                gain == gains@[0],
                i <= frames <= MAX_BLOCK_SIZE,
                forall|k: int|
                    0 <= k < i ==> (#[trigger] dst@[k]) as int == mul_fp_spec(
                        src@[k] as int,
                        gains@[k] as int,
                    ),
                forall|k: int| i <= k < MAX_BLOCK_SIZE ==> dst@[k] == old(dst)@[k],
            decreases frames - i,
        {
            let v: i64 = mul_fp(src.get(i), gain);
            dst.set(i, v);
            i = i + 1;
        }
    }
}

/// Wide kernel, mono: strides over the block one vector width at a time;
/// the final partial chunk is processed as a full chunk over the backing
/// capacity. Entries between the frame count and the chunk end are
/// written but carry no meaning.
pub fn mono_gain_wide(
    src: &MonoAudioBlockBuffer,
    dst: &mut MonoAudioBlockBuffer,
    gains: &Vec<i64>,
    frames: usize,
    smoothing: bool,
)
    requires
        src.wf(),
        old(dst).wf(),
        samples_bounded(src@),
        gains_ok(gains@, frames as int, smoothing),
        frames <= MAX_BLOCK_SIZE,
    ensures
        final(dst).wf(),
        forall|k: int|
            0 <= k < frames ==> (#[trigger] final(dst)@[k]) as int == mul_fp_spec(
                src@[k] as int,
                gains@[k] as int,
            ),
        forall|k: int| chunk_end(frames as int) <= k < MAX_BLOCK_SIZE ==> final(dst)@[k] == old(
            dst,
        )@[k],
{
    proof {
        lemma_chunk_end_bounds(frames as int);
    }
    let mut padded: usize = ((frames + AVX_VECTOR_WIDTH - 1) / AVX_VECTOR_WIDTH) * AVX_VECTOR_WIDTH;
    if padded > MAX_BLOCK_SIZE {
        padded = MAX_BLOCK_SIZE;
    }
    if smoothing {
        let mut i: usize = 0;
        while i < padded
            invariant
                src.wf(),
                dst.wf(),
                samples_bounded(src@),
                gains_ok(gains@, frames as int, smoothing),
                frames <= MAX_BLOCK_SIZE,
                padded == chunk_end(frames as int),
                i % AVX_VECTOR_WIDTH == 0,
                padded % AVX_VECTOR_WIDTH == 0,
                i <= padded,
                forall|k: int|
                    0 <= k < i ==> (#[trigger] dst@[k]) as int == mul_fp_spec(
                        src@[k] as int,
                        gains@[k] as int,
                    ),
                forall|k: int| i <= k < MAX_BLOCK_SIZE ==> dst@[k] == old(dst)@[k],
            decreases padded - i,
        {
            let mut j: usize = 0;
            while j < AVX_VECTOR_WIDTH
                invariant
                    src.wf(),
                    dst.wf(),
                    samples_bounded(src@),
                    gains_ok(gains@, frames as int, smoothing),
                    j <= AVX_VECTOR_WIDTH,
                    i + AVX_VECTOR_WIDTH <= padded <= MAX_BLOCK_SIZE,
                    forall|k: int|
                        0 <= k < i + j ==> (#[trigger] dst@[k]) as int == mul_fp_spec(
                            src@[k] as int,
                            gains@[k] as int,
                        ),
                    forall|k: int| i + j <= k < MAX_BLOCK_SIZE ==> dst@[k] == old(dst)@[k],
                decreases AVX_VECTOR_WIDTH - j,
            {
                let k: usize = i + j;
                let v: i64 = mul_fp(src.get(k), gains[k]);
                dst.set(k, v);
                j = j + 1;
            }
            i = i + AVX_VECTOR_WIDTH;
        }
    } else {
        let gain: i64 = gains[0];
        let mut i: usize = 0;
        while i < padded
            invariant
                src.wf(),
                dst.wf(),
                samples_bounded(src@),
                gains_ok(gains@, frames as int, smoothing),
                !smoothing,
                gain == gains@[0],
                frames <= MAX_BLOCK_SIZE,
                padded == chunk_end(frames as int),
                i % AVX_VECTOR_WIDTH == 0,
                padded % AVX_VECTOR_WIDTH == 0,
                i <= padded,
                forall|k: int|
                    0 <= k < i && k < frames ==> (#[trigger] dst@[k]) as int == mul_fp_spec(
                        src@[k] as int,
                        gains@[k] as int,
                    ),
                forall|k: int| i <= k < MAX_BLOCK_SIZE ==> dst@[k] == old(dst)@[k],
            decreases padded - i,
        {
            let mut j: usize = 0;
            while j < AVX_VECTOR_WIDTH
                invariant
                    src.wf(),
                    dst.wf(),
                    samples_bounded(src@),
                    gains_ok(gains@, frames as int, smoothing),
                    !smoothing,
                    gain == gains@[0],
                    frames <= MAX_BLOCK_SIZE,
                    j <= AVX_VECTOR_WIDTH,
                    i + AVX_VECTOR_WIDTH <= padded <= MAX_BLOCK_SIZE,
                    forall|k: int|
                        0 <= k < i + j && k < frames ==> (#[trigger] dst@[k]) as int == mul_fp_spec(
                            src@[k] as int,
                            gains@[k] as int,
                        ),
                    forall|k: int| i + j <= k < MAX_BLOCK_SIZE ==> dst@[k] == old(dst)@[k],
                decreases AVX_VECTOR_WIDTH - j,
            {
                let k: usize = i + j;
                let v: i64 = mul_fp(src.get(k), gain);
                dst.set(k, v);
                j = j + 1;
            }
            i = i + AVX_VECTOR_WIDTH;
        }
    }
}

/// The wide kernel and the scalar kernel agree exactly on every sample of
/// the block, for any input block and any parameter state: both write
/// `mul_fp_spec(src[k], gains[k])` at every meaningful index.
pub proof fn lemma_wide_matches_scalar(
    src: Seq<i64>,
    gains: Seq<i64>,
    scalar_out: Seq<i64>,
    wide_out: Seq<i64>,
    frames: int,
)
    requires
        0 <= frames <= MAX_BLOCK_SIZE,
        forall|k: int|
            0 <= k < frames ==> (#[trigger] scalar_out[k]) as int == mul_fp_spec(
                src[k] as int,
                gains[k] as int,
            ),
        forall|k: int|
            0 <= k < frames ==> (#[trigger] wide_out[k]) as int == mul_fp_spec(
                src[k] as int,
                gains[k] as int,
            ),
    ensures
        forall|k: int| 0 <= k < frames ==> #[trigger] scalar_out[k] == wide_out[k],
{
}

/// A mono gain node: one mono input port, one mono output port, one
/// smoothed decibel parameter.
pub struct MonoGainNode {
    gain_amp: Param,
}

impl View for MonoGainNode {
    type V = crate::param::ParamModel;

    closed spec fn view(&self) -> crate::param::ParamModel {
        self.gain_amp@
    }
}

impl MonoGainNode {
    /// Build a mono gain node and its control handle. The initial gain and
    /// the bounds are thousandths of a decibel; invalid configuration is
    /// rejected before the node ever reaches the audio thread.
    pub fn new(gain_db: i64, min_db: i64, max_db: i64, sample_rate: SampleRate) -> (r: Result<
        (MonoGainNode, GainNodeHandle),
        ParamError,
    >)
        ensures
            match config_error(Unit::Decibels, min_db as int, max_db as int, SMOOTH_MS, sample_rate.0) {
                Some(e) => r == Err::<(MonoGainNode, GainNodeHandle), ParamError>(e),
                None => match r {
                    Ok((n, h)) => {
                        &&& param_wf(n@)
                        &&& n@.unit == Unit::Decibels
                        &&& n@.min == min_db
                        &&& n@.max == max_db
                        &&& n@.ramp_len as int == crate::param::ramp_len_spec(
                            SMOOTH_MS,
                            sample_rate.0,
                        )
                        &&& n@.target as int == crate::param::map_unit_spec(
                            Unit::Decibels,
                            crate::fixed::clamp_spec(gain_db as int, min_db as int, max_db as int),
                        )
                        &&& n@.start == n@.target
                        &&& n@.pos == n@.ramp_len
                        &&& handle_wf(h.gain_db@)
                        &&& h.gain_db@.unit == Unit::Decibels
                        &&& h.gain_db@.min == min_db
                        &&& h.gain_db@.max == max_db
                    },
                    Err(_) => false,
                },
            },
    {
        match Param::from_value(gain_db, min_db, max_db, Unit::Decibels, SMOOTH_MS, sample_rate) {
            Ok((gain_amp, handle)) => Ok(
                (MonoGainNode { gain_amp }, GainNodeHandle { gain_db: handle }),
            ),
            Err(e) => Err(e),
        }
    }
}

impl AudioGraphNode for MonoGainNode {
    open spec fn mono_in_ports_spec(&self) -> int {
        1
    }

    open spec fn mono_out_ports_spec(&self) -> int {
        1
    }

    open spec fn stereo_in_ports_spec(&self) -> int {
        0
    }

    open spec fn stereo_out_ports_spec(&self) -> int {
        0
    }

    open spec fn node_wf(&self) -> bool {
        param_wf(self@)
    }

    fn mono_audio_in_ports(&self) -> (n: usize) {
        1
    }

    fn mono_audio_out_ports(&self) -> (n: usize) {
        1
    }

    fn stereo_audio_in_ports(&self) -> (n: usize) {
        0
    }

    fn stereo_audio_out_ports(&self) -> (n: usize) {
        0
    }

    fn process(
        &mut self,
        proc_info: &ProcInfo,
        transport: &TimelineTransport,
        mono_in: &Vec<MonoAudioBlockBuffer>,
        mono_out: &mut Vec<MonoAudioBlockBuffer>,
        stereo_in: &Vec<StereoAudioBlockBuffer>,
        stereo_out: &mut Vec<StereoAudioBlockBuffer>,
    )
        ensures
            final(self)@.unit == old(self)@.unit,
            final(self)@.min == old(self)@.min,
            final(self)@.max == old(self)@.max,
            final(self)@.ramp_len == old(self)@.ramp_len,
            forall|k: int|
                0 <= k < proc_info.frames ==> (#[trigger] final(mono_out)@[0]@[k]) as int
                    == mul_fp_spec(
                    mono_in@[0]@[k] as int,
                    block_gain(old(self)@, final(self)@.target, k),
                ),
    {
        let frames: usize = proc_info.frames();

        let smoothing: bool = self.gain_amp.smoothed(frames);
        proof {
            if !smoothing {
                lemma_settled_gains_constant(old(self)@, self@, frames as int);
            }
        }

        let mut dst: MonoAudioBlockBuffer = mono_out.remove(0);
        if proc_info.cpu.avx {
            mono_gain_wide(&mono_in[0], &mut dst, self.gain_amp.values(), frames, smoothing);
        } else {
            mono_gain_scalar(&mono_in[0], &mut dst, self.gain_amp.values(), frames, smoothing);
        }
        mono_out.insert(0, dst);
    }
}

/// When a parameter reports "not smoothing", every gain it produced for the
/// block equals its (unchanged) target, so the whole block shares one
/// constant gain.
proof fn lemma_settled_gains_constant(
    m0: crate::param::ParamModel,
    m1: crate::param::ParamModel,
    frames: int,
)
    requires
        param_wf(m0),
        param_wf(m1),
        0 <= frames <= MAX_BLOCK_SIZE,
        m1.ramp_len == m0.ramp_len,
        aim_pos(m0, m1.target) >= m0.ramp_len,
        forall|k: int|
            0 <= k < frames ==> (#[trigger] m1.out[k]) as int == block_gain(m0, m1.target, k),
    ensures
        forall|k: int| 0 <= k < frames ==> #[trigger] m1.out[k] == m1.target,
        forall|k: int| 0 <= k < frames ==> #[trigger] m1.out[k] == m1.out[0],
{
    assert(aim_pos(m0, m1.target) == m0.pos as int);
    assert(m1.target == m0.target);
    assert forall|k: int| 0 <= k < frames implies #[trigger] m1.out[k] == m1.target by {
        lemma_ramp_endpoints(
            crate::param::aim_start(m0, m1.target),
            m1.target as int,
            m0.ramp_len as int,
        );
        assert(vstd::math::min(aim_pos(m0, m1.target) + k + 1, m0.ramp_len as int)
            == m0.ramp_len as int);
    }
}

/// Scalar reference kernel, stereo: the same gain sequence scales both
/// channels (shared gain, not independently smoothed per channel).
pub fn stereo_gain_scalar(
    src: &StereoAudioBlockBuffer,
    dst: &mut StereoAudioBlockBuffer,
    gains: &Vec<i64>,
    frames: usize,
    smoothing: bool,
)
    requires
        src.wf(),
        old(dst).wf(),
        samples_bounded(src@.left),
        samples_bounded(src@.right),
        gains_ok(gains@, frames as int, smoothing),
        frames <= MAX_BLOCK_SIZE,
    ensures
        final(dst).wf(),
        forall|k: int|
            0 <= k < frames ==> (#[trigger] final(dst)@.left[k]) as int == mul_fp_spec(
                src@.left[k] as int,
                gains@[k] as int,
            ),
        forall|k: int|
            0 <= k < frames ==> (#[trigger] final(dst)@.right[k]) as int == mul_fp_spec(
                src@.right[k] as int,
                gains@[k] as int,
            ),
        forall|k: int| frames <= k < MAX_BLOCK_SIZE ==> final(dst)@.left[k] == old(dst)@.left[k],
        forall|k: int| frames <= k < MAX_BLOCK_SIZE ==> final(dst)@.right[k] == old(dst)@.right[k],
{
    if smoothing {
        let mut i: usize = 0;
        while i < frames
            invariant
                src.wf(),
                dst.wf(),
                samples_bounded(src@.left),
                samples_bounded(src@.right),
                gains_ok(gains@, frames as int, smoothing),
                i <= frames <= MAX_BLOCK_SIZE,
                forall|k: int|
                    0 <= k < i ==> (#[trigger] dst@.left[k]) as int == mul_fp_spec(
                        src@.left[k] as int,
                        gains@[k] as int,
                    ),
                forall|k: int|
                    0 <= k < i ==> (#[trigger] dst@.right[k]) as int == mul_fp_spec(
                        src@.right[k] as int,
                        gains@[k] as int,
                    ),
                forall|k: int| i <= k < MAX_BLOCK_SIZE ==> dst@.left[k] == old(dst)@.left[k],
                forall|k: int| i <= k < MAX_BLOCK_SIZE ==> dst@.right[k] == old(dst)@.right[k],
            decreases frames - i,
        {
            let g: i64 = gains[i];
            let vl: i64 = mul_fp(src.get_left(i), g);
            let vr: i64 = mul_fp(src.get_right(i), g);
            dst.set_left(i, vl);
            dst.set_right(i, vr);
            i = i + 1;
        }
    } else {
        let gain: i64 = gains[0];
        let mut i: usize = 0;
        while i < frames
            invariant
                src.wf(),
                dst.wf(),
                samples_bounded(src@.left),
                samples_bounded(src@.right),
                gains_ok(gains@, frames as int, smoothing),
                !smoothing,
                gain == gains@[0],
                i <= frames <= MAX_BLOCK_SIZE,
                forall|k: int|
                    0 <= k < i ==> (#[trigger] dst@.left[k]) as int == mul_fp_spec(
                        src@.left[k] as int,
                        gains@[k] as int,
                    ),
                forall|k: int|
                    0 <= k < i ==> (#[trigger] dst@.right[k]) as int == mul_fp_spec(
                        src@.right[k] as int,
                        gains@[k] as int,
                    ),
                forall|k: int| i <= k < MAX_BLOCK_SIZE ==> dst@.left[k] == old(dst)@.left[k],
                forall|k: int| i <= k < MAX_BLOCK_SIZE ==> dst@.right[k] == old(dst)@.right[k],
            decreases frames - i,
        {
            let vl: i64 = mul_fp(src.get_left(i), gain);
            let vr: i64 = mul_fp(src.get_right(i), gain);
            dst.set_left(i, vl);
            dst.set_right(i, vr);
            i = i + 1;
        }
    }
}

/// Wide kernel, stereo: both channels strided one vector width at a time,
/// the final partial chunk processed as a full chunk over the backing
/// capacity.
pub fn stereo_gain_wide(
    src: &StereoAudioBlockBuffer,
    dst: &mut StereoAudioBlockBuffer,
    gains: &Vec<i64>,
    frames: usize,
    smoothing: bool,
)
    requires
        src.wf(),
        old(dst).wf(),
        samples_bounded(src@.left),
        samples_bounded(src@.right),
        gains_ok(gains@, frames as int, smoothing),
        frames <= MAX_BLOCK_SIZE,
    ensures
        final(dst).wf(),
        forall|k: int|
            0 <= k < frames ==> (#[trigger] final(dst)@.left[k]) as int == mul_fp_spec(
                src@.left[k] as int,
                gains@[k] as int,
            ),
        forall|k: int|
            0 <= k < frames ==> (#[trigger] final(dst)@.right[k]) as int == mul_fp_spec(
                src@.right[k] as int,
                gains@[k] as int,
            ),
        forall|k: int|
            chunk_end(frames as int) <= k < MAX_BLOCK_SIZE ==> final(dst)@.left[k] == old(
                dst,
            )@.left[k],
        forall|k: int|
            chunk_end(frames as int) <= k < MAX_BLOCK_SIZE ==> final(dst)@.right[k] == old(
                dst,
            )@.right[k],
{
    proof {
        lemma_chunk_end_bounds(frames as int);
    }
    let mut padded: usize = ((frames + AVX_VECTOR_WIDTH - 1) / AVX_VECTOR_WIDTH) * AVX_VECTOR_WIDTH;
    if padded > MAX_BLOCK_SIZE {
        padded = MAX_BLOCK_SIZE;
    }
    if smoothing {
        let mut i: usize = 0;
        while i < padded
            invariant
                src.wf(),
                dst.wf(),
                samples_bounded(src@.left),
                samples_bounded(src@.right),
                gains_ok(gains@, frames as int, smoothing),
                frames <= MAX_BLOCK_SIZE,
                padded == chunk_end(frames as int),
                i % AVX_VECTOR_WIDTH == 0,
                padded % AVX_VECTOR_WIDTH == 0,
                i <= padded,
                forall|k: int|
                    0 <= k < i ==> (#[trigger] dst@.left[k]) as int == mul_fp_spec(
                        src@.left[k] as int,
                        gains@[k] as int,
                    ),
                forall|k: int|
                    0 <= k < i ==> (#[trigger] dst@.right[k]) as int == mul_fp_spec(
                        src@.right[k] as int,
                        gains@[k] as int,
                    ),
                forall|k: int| i <= k < MAX_BLOCK_SIZE ==> dst@.left[k] == old(dst)@.left[k],
                forall|k: int| i <= k < MAX_BLOCK_SIZE ==> dst@.right[k] == old(dst)@.right[k],
            decreases padded - i,
        {
            let mut j: usize = 0;
            while j < AVX_VECTOR_WIDTH
                invariant
                    src.wf(),
                    dst.wf(),
                    samples_bounded(src@.left),
                    samples_bounded(src@.right),
                    gains_ok(gains@, frames as int, smoothing),
                    j <= AVX_VECTOR_WIDTH,
                    i + AVX_VECTOR_WIDTH <= padded <= MAX_BLOCK_SIZE,
                    forall|k: int|
                        0 <= k < i + j ==> (#[trigger] dst@.left[k]) as int == mul_fp_spec(
                            src@.left[k] as int,
                            gains@[k] as int,
                        ),
                    forall|k: int|
                        0 <= k < i + j ==> (#[trigger] dst@.right[k]) as int == mul_fp_spec(
                            src@.right[k] as int,
                            gains@[k] as int,
                        ),
                    forall|k: int| i + j <= k < MAX_BLOCK_SIZE ==> dst@.left[k] == old(dst)@.left[k],
                    forall|k: int|
                        i + j <= k < MAX_BLOCK_SIZE ==> dst@.right[k] == old(dst)@.right[k],
                decreases AVX_VECTOR_WIDTH - j,
            {
                let k: usize = i + j;
                let g: i64 = gains[k];
                let vl: i64 = mul_fp(src.get_left(k), g);
                let vr: i64 = mul_fp(src.get_right(k), g);
                dst.set_left(k, vl);
                dst.set_right(k, vr);
                j = j + 1;
            }
            i = i + AVX_VECTOR_WIDTH;
        }
    } else {
        let gain: i64 = gains[0];
        let mut i: usize = 0;
        while i < padded
            invariant
                src.wf(),
                dst.wf(),
                samples_bounded(src@.left),
                samples_bounded(src@.right),
                gains_ok(gains@, frames as int, smoothing),
                !smoothing,
                gain == gains@[0],
                frames <= MAX_BLOCK_SIZE,
                padded == chunk_end(frames as int),
                i % AVX_VECTOR_WIDTH == 0,
                padded % AVX_VECTOR_WIDTH == 0,
                i <= padded,
                forall|k: int|
                    0 <= k < i && k < frames ==> (#[trigger] dst@.left[k]) as int == mul_fp_spec(
                        src@.left[k] as int,
                        gains@[k] as int,
                    ),
                forall|k: int|
                    0 <= k < i && k < frames ==> (#[trigger] dst@.right[k]) as int == mul_fp_spec(
                        src@.right[k] as int,
                        gains@[k] as int,
                    ),
                forall|k: int| i <= k < MAX_BLOCK_SIZE ==> dst@.left[k] == old(dst)@.left[k],
                forall|k: int| i <= k < MAX_BLOCK_SIZE ==> dst@.right[k] == old(dst)@.right[k],
            decreases padded - i,
        {
            let mut j: usize = 0;
            while j < AVX_VECTOR_WIDTH
                invariant
                    src.wf(),
                    dst.wf(),
                    samples_bounded(src@.left),
                    samples_bounded(src@.right),
                    gains_ok(gains@, frames as int, smoothing),
                    !smoothing,
                    gain == gains@[0],
                    frames <= MAX_BLOCK_SIZE,
                    j <= AVX_VECTOR_WIDTH,
                    i + AVX_VECTOR_WIDTH <= padded <= MAX_BLOCK_SIZE,
                    forall|k: int|
                        0 <= k < i + j && k < frames ==> (#[trigger] dst@.left[k]) as int
                            == mul_fp_spec(src@.left[k] as int, gains@[k] as int),
                    forall|k: int|
                        0 <= k < i + j && k < frames ==> (#[trigger] dst@.right[k]) as int
                            == mul_fp_spec(src@.right[k] as int, gains@[k] as int),
                    forall|k: int| i + j <= k < MAX_BLOCK_SIZE ==> dst@.left[k] == old(dst)@.left[k],
                    forall|k: int|
                        i + j <= k < MAX_BLOCK_SIZE ==> dst@.right[k] == old(dst)@.right[k],
                decreases AVX_VECTOR_WIDTH - j,
            {
                let k: usize = i + j;
                let vl: i64 = mul_fp(src.get_left(k), gain);
                let vr: i64 = mul_fp(src.get_right(k), gain);
                dst.set_left(k, vl);
                dst.set_right(k, vr);
                j = j + 1;
            }
            i = i + AVX_VECTOR_WIDTH;
        }
    }
}

/// A stereo gain node: one stereo input port, one stereo output port, one
/// smoothed decibel parameter shared by both channels.
pub struct StereoGainNode {
    gain_amp: Param,
}

impl View for StereoGainNode {
    type V = crate::param::ParamModel;

    closed spec fn view(&self) -> crate::param::ParamModel {
        self.gain_amp@
    }
}

impl StereoGainNode {
    /// Build a stereo gain node and its control handle. The initial gain
    /// and the bounds are thousandths of a decibel; invalid configuration
    /// is rejected before the node ever reaches the audio thread.
    pub fn new(gain_db: i64, min_db: i64, max_db: i64, sample_rate: SampleRate) -> (r: Result<
        (StereoGainNode, GainNodeHandle),
        ParamError,
    >)
        ensures
            match config_error(Unit::Decibels, min_db as int, max_db as int, SMOOTH_MS, sample_rate.0) {
                Some(e) => r == Err::<(StereoGainNode, GainNodeHandle), ParamError>(e),
                None => match r {
                    Ok((n, h)) => {
                        &&& param_wf(n@)
                        &&& n@.unit == Unit::Decibels
                        &&& n@.min == min_db
                        &&& n@.max == max_db
                        &&& n@.ramp_len as int == crate::param::ramp_len_spec(
                            SMOOTH_MS,
                            sample_rate.0,
                        )
                        &&& n@.target as int == crate::param::map_unit_spec(
                            Unit::Decibels,
                            crate::fixed::clamp_spec(gain_db as int, min_db as int, max_db as int),
                        )
                        &&& n@.start == n@.target
                        &&& n@.pos == n@.ramp_len
                        &&& handle_wf(h.gain_db@)
                        &&& h.gain_db@.unit == Unit::Decibels
                        &&& h.gain_db@.min == min_db
                        &&& h.gain_db@.max == max_db
                    },
                    Err(_) => false,
                },
            },
    {
        match Param::from_value(gain_db, min_db, max_db, Unit::Decibels, SMOOTH_MS, sample_rate) {
            Ok((gain_amp, handle)) => Ok(
                (StereoGainNode { gain_amp }, GainNodeHandle { gain_db: handle }),
            ),
            Err(e) => Err(e),
        }
    }
}

impl AudioGraphNode for StereoGainNode {
    open spec fn mono_in_ports_spec(&self) -> int {
        0
    }

    open spec fn mono_out_ports_spec(&self) -> int {
        0
    }

    open spec fn stereo_in_ports_spec(&self) -> int {
        1
    }

    open spec fn stereo_out_ports_spec(&self) -> int {
        1
    }

    open spec fn node_wf(&self) -> bool {
        param_wf(self@)
    }

    fn mono_audio_in_ports(&self) -> (n: usize) {
        0
    }

    fn mono_audio_out_ports(&self) -> (n: usize) {
        0
    }

    fn stereo_audio_in_ports(&self) -> (n: usize) {
        1
    }

    fn stereo_audio_out_ports(&self) -> (n: usize) {
        1
    }

    fn process(
        &mut self,
        proc_info: &ProcInfo,
        transport: &TimelineTransport,
        mono_in: &Vec<MonoAudioBlockBuffer>,
        mono_out: &mut Vec<MonoAudioBlockBuffer>,
        stereo_in: &Vec<StereoAudioBlockBuffer>,
        stereo_out: &mut Vec<StereoAudioBlockBuffer>,
    )
        ensures
            final(self)@.unit == old(self)@.unit,
            final(self)@.min == old(self)@.min,
            final(self)@.max == old(self)@.max,
            final(self)@.ramp_len == old(self)@.ramp_len,
            forall|k: int|
                0 <= k < proc_info.frames ==> (#[trigger] final(stereo_out)@[0]@.left[k]) as int
                    == mul_fp_spec(
                    stereo_in@[0]@.left[k] as int,
                    block_gain(old(self)@, final(self)@.target, k),
                ),
            forall|k: int|
                0 <= k < proc_info.frames ==> (#[trigger] final(stereo_out)@[0]@.right[k]) as int
                    == mul_fp_spec(
                    stereo_in@[0]@.right[k] as int,
                    block_gain(old(self)@, final(self)@.target, k),
                ),
    {
        let frames: usize = proc_info.frames();

        let smoothing: bool = self.gain_amp.smoothed(frames);
        proof {
            if !smoothing {
                lemma_settled_gains_constant(old(self)@, self@, frames as int);
            }
        }

        let mut dst: StereoAudioBlockBuffer = stereo_out.remove(0);
        if proc_info.cpu.avx {
            stereo_gain_wide(&stereo_in[0], &mut dst, self.gain_amp.values(), frames, smoothing);
        } else {
            stereo_gain_scalar(&stereo_in[0], &mut dst, self.gain_amp.values(), frames, smoothing);
        }
        stereo_out.insert(0, dst);
    }
}

/// Channel independence with shared gain: the stereo node scales both
/// channels by the identical per-sample gain sequence, so channels fed the
/// same input produce the same output, sample for sample.
pub proof fn lemma_stereo_shared_gain(
    in_l: Seq<i64>,
    in_r: Seq<i64>,
    out_l: Seq<i64>,
    out_r: Seq<i64>,
    m0: crate::param::ParamModel,
    t: i64,
    frames: int,
)
    requires
        forall|k: int|
            0 <= k < frames ==> (#[trigger] out_l[k]) as int == mul_fp_spec(
                in_l[k] as int,
                block_gain(m0, t, k),
            ),
        forall|k: int|
            0 <= k < frames ==> (#[trigger] out_r[k]) as int == mul_fp_spec(
                in_r[k] as int,
                block_gain(m0, t, k),
            ),
        forall|k: int| 0 <= k < frames ==> #[trigger] in_l[k] == in_r[k],
    ensures
        forall|k: int| 0 <= k < frames ==> #[trigger] out_l[k] == out_r[k],
{
}

} // verus!
