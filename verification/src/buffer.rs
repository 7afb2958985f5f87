//! Fixed-capacity block buffers.
//!
//! Every buffer is allocated once, at the engine's maximum block size, by
//! the graph's buffer pool; nodes only ever receive views of it. Only the
//! first `frames` entries of a block are meaningful: anything beyond the
//! current block's frame count is stale and must never be read by a
//! consumer that respects the declared frame count.

use vstd::pervasive::VecAdditionalExecFns;
use vstd::prelude::*;

use crate::{MAX_BLOCK_SIZE, SAMPLE_LIMIT};

verus! {

/// A mono block buffer: one channel of `MAX_BLOCK_SIZE` samples.
pub struct MonoAudioBlockBuffer {
    samples: Vec<i64>,
}

impl View for MonoAudioBlockBuffer {
    type V = Seq<i64>;

    closed spec fn view(&self) -> Seq<i64> {
        self.samples@
    }
}

/// A stereo block buffer: two parallel channels of `MAX_BLOCK_SIZE`
/// samples.
pub struct StereoAudioBlockBuffer {
    left: Vec<i64>,
    right: Vec<i64>,
}

/// The two channels of a stereo buffer, as sequences.
pub struct StereoView {
    /// The left channel.
    pub left: Seq<i64>,
    /// The right channel.
    pub right: Seq<i64>,
}

impl View for StereoAudioBlockBuffer {
    type V = StereoView;

    closed spec fn view(&self) -> StereoView {
        StereoView { left: self.left@, right: self.right@ }
    }
}

/// A sequence of samples small enough for the gain kernels' arithmetic.
pub open spec fn samples_bounded(s: Seq<i64>) -> bool {
    forall|k: int| 0 <= k < s.len() ==> -SAMPLE_LIMIT <= #[trigger] s[k] <= SAMPLE_LIMIT
}

impl MonoAudioBlockBuffer {
    /// The buffer holds exactly the engine's maximum block size.
    pub open spec fn wf(&self) -> bool {
        self@.len() == MAX_BLOCK_SIZE
    }

    /// Allocate a buffer of silence.
    pub fn new() -> (b: MonoAudioBlockBuffer)
        ensures
            b.wf(),
            forall|k: int| 0 <= k < MAX_BLOCK_SIZE ==> #[trigger] b@[k] == 0,
    {
        MonoAudioBlockBuffer { samples: zeroed_block() }
    }

    /// Read the sample at `k`.
    pub fn get(&self, k: usize) -> (v: i64)
        requires
            k < self@.len(),
        ensures
            v == self@[k as int],
    {
        self.samples[k]
    }

    /// Write the sample at `k`.
    pub fn set(&mut self, k: usize, v: i64)
        requires
            k < old(self)@.len(),
        ensures
            final(self)@ == old(self)@.update(k as int, v),
    {
        self.samples.set(k, v);
    }
}

impl StereoAudioBlockBuffer {
    /// Both channels hold exactly the engine's maximum block size.
    pub open spec fn wf(&self) -> bool {
        self@.left.len() == MAX_BLOCK_SIZE && self@.right.len() == MAX_BLOCK_SIZE
    }

    /// Allocate a buffer of silence.
    pub fn new() -> (b: StereoAudioBlockBuffer)
        ensures
            b.wf(),
            forall|k: int| 0 <= k < MAX_BLOCK_SIZE ==> #[trigger] b@.left[k] == 0,
            forall|k: int| 0 <= k < MAX_BLOCK_SIZE ==> #[trigger] b@.right[k] == 0,
    {
        StereoAudioBlockBuffer { left: zeroed_block(), right: zeroed_block() }
    }

    /// Read the left sample at `k`.
    pub fn get_left(&self, k: usize) -> (v: i64)
        requires
            k < self@.left.len(),
        ensures
            v == self@.left[k as int],
    {
        self.left[k]
    }

    /// Read the right sample at `k`.
    pub fn get_right(&self, k: usize) -> (v: i64)
        requires
            k < self@.right.len(),
        ensures
            v == self@.right[k as int],
    {
        self.right[k]
    }

    /// Write the left sample at `k`.
    pub fn set_left(&mut self, k: usize, v: i64)
        requires
            k < old(self)@.left.len(),
        ensures
            final(self)@.left == old(self)@.left.update(k as int, v),
            final(self)@.right == old(self)@.right,
    {
        self.left.set(k, v);
    }

    /// Write the right sample at `k`.
    pub fn set_right(&mut self, k: usize, v: i64)
        requires
            k < old(self)@.right.len(),
        ensures
            final(self)@.right == old(self)@.right.update(k as int, v),
            final(self)@.left == old(self)@.left,
    {
        self.right.set(k, v);
    }
}

/// One channel's worth of silence.
fn zeroed_block() -> (v: Vec<i64>)
    ensures
        v@.len() == MAX_BLOCK_SIZE,
        forall|k: int| 0 <= k < MAX_BLOCK_SIZE ==> #[trigger] v@[k] == 0,
{
    let mut v: Vec<i64> = Vec::new();
    let mut k: usize = 0;
    while k < MAX_BLOCK_SIZE
        invariant
            k <= MAX_BLOCK_SIZE,
            v@.len() == k,
            forall|j: int| 0 <= j < k ==> #[trigger] v@[j] == 0,
        decreases MAX_BLOCK_SIZE - k,
    {
        v.push(0);
        k = k + 1;
    }
    v
}

} // verus!
