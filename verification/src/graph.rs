//! The block-processing contract: per-call context, the read-only transport
//! snapshot, and the node capability every DSP behaviour implements.

use vstd::prelude::*;

use crate::buffer::{samples_bounded, MonoAudioBlockBuffer, StereoAudioBlockBuffer};
use crate::cpu::CpuFeatures;
use crate::param::SampleRate;
use crate::MAX_BLOCK_SIZE;

verus! {

/// Per-block call metadata: the authoritative frame count for this call
/// (never more than the buffers' allocated capacity) and the CPU snapshot
/// the scheduler resolved at startup.
#[derive(Clone, Copy)]
pub struct ProcInfo {
    /// Frames to produce in this block.
    pub frames: usize,
    /// The engine's sample rate.
    pub sample_rate: SampleRate,
    /// The process-wide CPU feature snapshot.
    pub cpu: CpuFeatures,
}

impl ProcInfo {
    /// The frame count stays within every buffer's capacity.
    pub open spec fn wf(&self) -> bool {
        self.frames <= MAX_BLOCK_SIZE
    }

    /// The number of frames in this block.
    pub fn frames(&self) -> (n: usize)
        ensures
            n == self.frames,
    {
        self.frames
    }
}

/// A read-only snapshot of the timeline transport, taken once per block by
/// the (external) transport clock. Nodes may read it; none may change it.
#[derive(Clone, Copy, Debug, PartialEq, Eq, Structural)]
pub struct TimelineTransport {
    /// The playhead position, in frames since the timeline origin.
    pub playhead_frame: u64,
    /// Whether the timeline is rolling.
    pub is_playing: bool,
}

/// The polymorphic unit of computation: a node declares its port counts and
/// transforms input views into output views, one block at a time.
///
/// `process` must touch nothing but its declared outputs: no I/O, no
/// allocation, no blocking. A node that cannot produce meaningful output
/// still writes every declared sample (silence rather than stale memory).
pub trait AudioGraphNode: Sized {
    /// Declared mono input port count.
    spec fn mono_in_ports_spec(&self) -> int;

    /// Declared mono output port count.
    spec fn mono_out_ports_spec(&self) -> int;

    /// Declared stereo input port count.
    spec fn stereo_in_ports_spec(&self) -> int;

    /// Declared stereo output port count.
    spec fn stereo_out_ports_spec(&self) -> int;

    /// The node's internal invariant.
    spec fn node_wf(&self) -> bool;

    /// The number of mono input ports to wire.
    fn mono_audio_in_ports(&self) -> (n: usize)
        ensures
            n == self.mono_in_ports_spec(),
    ;

    /// The number of mono output ports to wire.
    fn mono_audio_out_ports(&self) -> (n: usize)
        ensures
            n == self.mono_out_ports_spec(),
    ;

    /// The number of stereo input ports to wire.
    fn stereo_audio_in_ports(&self) -> (n: usize)
        ensures
            n == self.stereo_in_ports_spec(),
    ;

    /// The number of stereo output ports to wire.
    fn stereo_audio_out_ports(&self) -> (n: usize)
        ensures
            n == self.stereo_out_ports_spec(),
    ;

    /// Process one block: read `proc_info.frames` frames from each declared
    /// input view and write that many to each declared output view. The
    /// scheduler supplies exactly as many views as the node declares, all
    /// valid for the whole block.
    fn process(
        &mut self,
        proc_info: &ProcInfo,
        transport: &TimelineTransport,
        mono_in: &Vec<MonoAudioBlockBuffer>,
        mono_out: &mut Vec<MonoAudioBlockBuffer>,
        stereo_in: &Vec<StereoAudioBlockBuffer>,
        stereo_out: &mut Vec<StereoAudioBlockBuffer>,
    )
        requires
            old(self).node_wf(),
            proc_info.wf(),
            mono_in@.len() == old(self).mono_in_ports_spec(),
            old(mono_out)@.len() == old(self).mono_out_ports_spec(),
            stereo_in@.len() == old(self).stereo_in_ports_spec(),
            old(stereo_out)@.len() == old(self).stereo_out_ports_spec(),
            forall|i: int| 0 <= i < mono_in@.len() ==> (#[trigger] mono_in@[i]).wf(),
            forall|i: int| 0 <= i < mono_in@.len() ==> samples_bounded((#[trigger] mono_in@[i])@),
            forall|i: int| 0 <= i < old(mono_out)@.len() ==> (#[trigger] old(mono_out)@[i]).wf(),
            forall|i: int| 0 <= i < stereo_in@.len() ==> (#[trigger] stereo_in@[i]).wf(),
            forall|i: int|
                0 <= i < stereo_in@.len() ==> samples_bounded((#[trigger] stereo_in@[i])@.left)
                    && samples_bounded(stereo_in@[i]@.right),
            forall|i: int| 0 <= i < old(stereo_out)@.len() ==> (#[trigger] old(stereo_out)@[i]).wf(),
        ensures
            final(self).node_wf(),
            final(self).mono_in_ports_spec() == old(self).mono_in_ports_spec(),
            final(self).mono_out_ports_spec() == old(self).mono_out_ports_spec(),
            final(self).stereo_in_ports_spec() == old(self).stereo_in_ports_spec(),
            final(self).stereo_out_ports_spec() == old(self).stereo_out_ports_spec(),
            final(mono_out)@.len() == old(mono_out)@.len(),
            final(stereo_out)@.len() == old(stereo_out)@.len(),
            forall|i: int| 0 <= i < final(mono_out)@.len() ==> (#[trigger] final(mono_out)@[i]).wf(),
            forall|i: int|
                0 <= i < final(stereo_out)@.len() ==> (#[trigger] final(stereo_out)@[i]).wf(),
    ;
}

} // verus!
