use audio_core::buffer::{MonoAudioBlockBuffer, StereoAudioBlockBuffer};
use audio_core::cpu::CpuFeatures;
use audio_core::gain::{
    mono_gain_scalar, mono_gain_wide, stereo_gain_scalar, stereo_gain_wide, MonoGainNode,
    StereoGainNode,
};
use audio_core::graph::{AudioGraphNode, ProcInfo, TimelineTransport};
use audio_core::param::{ParamError, SampleRate};
use audio_core::{AMP_SCALE, MAX_BLOCK_SIZE};

fn mono_input(frames: usize) -> MonoAudioBlockBuffer {
    let mut b = MonoAudioBlockBuffer::new();
    let mut k: usize = 0;
    while k < frames {
        let v: i64 = (k as i64 - 31) * 10_000;
        b.set(k, v);
        k += 1;
    }
    b
}

fn proc_info(frames: usize, avx: bool) -> ProcInfo {
    ProcInfo { frames, sample_rate: SampleRate(48_000), cpu: CpuFeatures::from_detection(avx) }
}

fn transport() -> TimelineTransport {
    TimelineTransport { playhead_frame: 0, is_playing: true }
}

#[test]
fn settled_zero_db_node_is_identity() {
    // Target 0 dB maps to exactly unity gain, and a settled node scales
    // every sample by that constant: the output equals the input.
    let (mut node, _handle) =
        MonoGainNode::new(0, -60_000, 12_000, SampleRate(48_000)).unwrap();
    let src = mono_input(64);
    let mut ins: Vec<MonoAudioBlockBuffer> = Vec::new();
    let mut k: usize = 0;
    let mut expected: Vec<i64> = Vec::new();
    while k < 64 {
        expected.push(src.get(k));
        k += 1;
    }
    ins.push(src);
    let mut outs: Vec<MonoAudioBlockBuffer> = Vec::new();
    outs.push(MonoAudioBlockBuffer::new());
    node.process(&proc_info(64, false), &transport(), &ins, &mut outs, &Vec::new(), &mut Vec::new());
    let mut i: usize = 0;
    while i < 64 {
        assert_eq!(outs[0].get(i), expected[i]);
        i += 1;
    }
}

#[test]
fn settled_node_output_is_constant_scaling() {
    // A node settled on -20 dB scales every sample by exactly one tenth.
    let (mut node, handle) =
        MonoGainNode::new(-20_000, -60_000, 12_000, SampleRate(48_000)).unwrap();
    assert_eq!(handle.gain_db.target_for(-20_000), AMP_SCALE / 10);
    let src = mono_input(32);
    let mut ins: Vec<MonoAudioBlockBuffer> = Vec::new();
    ins.push(src);
    let mut outs: Vec<MonoAudioBlockBuffer> = Vec::new();
    outs.push(MonoAudioBlockBuffer::new());
    node.process(&proc_info(32, false), &transport(), &ins, &mut outs, &Vec::new(), &mut Vec::new());
    let mut i: usize = 0;
    while i < 32 {
        let s: i64 = ins[0].get(i);
        assert_eq!(outs[0].get(i), s / 10);
        i += 1;
    }
}

#[test]
fn vector_and_scalar_kernels_agree_mono() {
    // The cross-check at the heart of the dispatch design: for any block
    // and gain sequence, the wide kernel's meaningful output matches the
    // scalar kernel's exactly.
    let src = mono_input(MAX_BLOCK_SIZE);
    let mut gains: Vec<i64> = Vec::new();
    let mut k: usize = 0;
    while k < MAX_BLOCK_SIZE {
        gains.push(500_000 + (k as i64) * 3_000);
        k += 1;
    }
    let frames: usize = 100;  // not a multiple of the vector width
    let mut scalar_out = MonoAudioBlockBuffer::new();
    let mut wide_out = MonoAudioBlockBuffer::new();
    mono_gain_scalar(&src, &mut scalar_out, &gains, frames, true);
    mono_gain_wide(&src, &mut wide_out, &gains, frames, true);
    let mut i: usize = 0;
    while i < frames {
        assert_eq!(scalar_out.get(i), wide_out.get(i));
        i += 1;
    }
}

#[test]
fn vector_and_scalar_kernels_agree_settled() {
    let src = mono_input(MAX_BLOCK_SIZE);
    let mut gains: Vec<i64> = Vec::new();
    let mut k: usize = 0;
    while k < MAX_BLOCK_SIZE {
        gains.push(750_000);
        k += 1;
    }
    let frames: usize = 100;
    let mut scalar_out = MonoAudioBlockBuffer::new();
    let mut wide_out = MonoAudioBlockBuffer::new();
    mono_gain_scalar(&src, &mut scalar_out, &gains, frames, false);
    mono_gain_wide(&src, &mut wide_out, &gains, frames, false);
    let mut i: usize = 0;
    while i < frames {
        assert_eq!(scalar_out.get(i), wide_out.get(i));
        i += 1;
    }
}

#[test]
fn vector_and_scalar_kernels_agree_stereo() {
    let mut src = StereoAudioBlockBuffer::new();
    let mut k: usize = 0;
    while k < MAX_BLOCK_SIZE {
        src.set_left(k, (k as i64) * 7_000 - 400_000);
        src.set_right(k, 900_000 - (k as i64) * 5_000);
        k += 1;
    }
    let mut gains: Vec<i64> = Vec::new();
    let mut g: usize = 0;
    while g < MAX_BLOCK_SIZE {
        gains.push(100_000 + (g as i64) * 2_000);
        g += 1;
    }
    let frames: usize = 99;
    let mut scalar_out = StereoAudioBlockBuffer::new();
    let mut wide_out = StereoAudioBlockBuffer::new();
    stereo_gain_scalar(&src, &mut scalar_out, &gains, frames, true);
    stereo_gain_wide(&src, &mut wide_out, &gains, frames, true);
    let mut i: usize = 0;
    while i < frames {
        assert_eq!(scalar_out.get_left(i), wide_out.get_left(i));
        assert_eq!(scalar_out.get_right(i), wide_out.get_right(i));
        i += 1;
    }
}

#[test]
fn node_output_same_under_both_dispatch_paths() {
    // Two identical nodes, one dispatched wide and one scalar, produce the
    // same block.
    let (mut node_a, _h_a) = MonoGainNode::new(-6_000, -60_000, 12_000, SampleRate(48_000)).unwrap();
    let (mut node_b, _h_b) = MonoGainNode::new(-6_000, -60_000, 12_000, SampleRate(48_000)).unwrap();
    let src = mono_input(100);
    let mut ins: Vec<MonoAudioBlockBuffer> = Vec::new();
    ins.push(src);
    let mut outs_a: Vec<MonoAudioBlockBuffer> = Vec::new();
    outs_a.push(MonoAudioBlockBuffer::new());
    let mut outs_b: Vec<MonoAudioBlockBuffer> = Vec::new();
    outs_b.push(MonoAudioBlockBuffer::new());
    node_a.process(&proc_info(100, true), &transport(), &ins, &mut outs_a, &Vec::new(), &mut Vec::new());
    node_b.process(&proc_info(100, false), &transport(), &ins, &mut outs_b, &Vec::new(), &mut Vec::new());
    let mut i: usize = 0;
    while i < 100 {
        assert_eq!(outs_a[0].get(i), outs_b[0].get(i));
        i += 1;
    }
}

#[test]
fn stereo_channels_share_one_gain_sequence() {
    // Feed both channels the same signal while the gain is mid-ramp: the
    // outputs must match sample for sample (no left/right divergence).
    let (mut node, handle) =
        StereoGainNode::new(0, -60_000, 12_000, SampleRate(48_000)).unwrap();
    handle.gain_db.set(-12_000);
    let mut src = StereoAudioBlockBuffer::new();
    let mut k: usize = 0;
    while k < 128 {
        let v: i64 = (k as i64) * 11_000 - 600_000;
        src.set_left(k, v);
        src.set_right(k, v);
        k += 1;
    }
    let mut ins: Vec<StereoAudioBlockBuffer> = Vec::new();
    ins.push(src);
    let mut outs: Vec<StereoAudioBlockBuffer> = Vec::new();
    outs.push(StereoAudioBlockBuffer::new());
    node.process(&proc_info(128, false), &transport(), &Vec::new(), &mut Vec::new(), &ins, &mut outs);
    let mut i: usize = 0;
    while i < 128 {
        assert_eq!(outs[0].get_left(i), outs[0].get_right(i));
        i += 1;
    }
}

#[test]
fn gain_scenario_settles_at_half_amplitude() {
    // A mono gain node at 0 dB, bounds [-60 dB, +12 dB], smoothing 0.01 s,
    // sample rate 48 kHz. The control thread sets -6 dB; processing
    // 128-frame blocks, the ramp (480 samples) completes during block 4,
    // and the per-sample output ratio for a unit input stabilizes at
    // 10^(-6/20), about 0.5012.
    let (mut node, handle) =
        MonoGainNode::new(0, -60_000, 12_000, SampleRate(48_000)).unwrap();
    handle.gain_db.set(-6_000);

    let mut src = MonoAudioBlockBuffer::new();
    let mut k: usize = 0;
    while k < 128 {
        src.set(k, AMP_SCALE);  // unit input
        k += 1;
    }
    let mut ins: Vec<MonoAudioBlockBuffer> = Vec::new();
    ins.push(src);

    let blocks_to_settle: usize = (480 + 127) / 128;  // ceil(0.01 * 48000 / 128)
    let mut last: i64 = 0;
    let mut b: usize = 0;
    while b < blocks_to_settle + 1 {
        let mut outs: Vec<MonoAudioBlockBuffer> = Vec::new();
        outs.push(MonoAudioBlockBuffer::new());
        node.process(&proc_info(128, false), &transport(), &ins, &mut outs, &Vec::new(), &mut Vec::new());
        last = outs[0].get(127);
        b += 1;
    }
    // The stabilized per-sample ratio: output / unit input.
    let ratio: f64 = (last as f64) / (AMP_SCALE as f64);
    assert!((ratio - 0.5012).abs() < 1e-3);
    // And it is exactly the library's decibel mapping of -6 dB.
    assert_eq!(last, handle.gain_db.target_for(-6_000));
    // One more block: still the same constant.
    let mut outs: Vec<MonoAudioBlockBuffer> = Vec::new();
    outs.push(MonoAudioBlockBuffer::new());
    node.process(&proc_info(128, false), &transport(), &ins, &mut outs, &Vec::new(), &mut Vec::new());
    let mut i: usize = 0;
    while i < 128 {
        assert_eq!(outs[0].get(i), last);
        i += 1;
    }
}

#[test]
fn zero_frame_block_writes_nothing() {
    let (mut node, _handle) =
        MonoGainNode::new(0, -60_000, 12_000, SampleRate(48_000)).unwrap();
    let src = mono_input(0);
    let mut ins: Vec<MonoAudioBlockBuffer> = Vec::new();
    ins.push(src);
    let mut outs: Vec<MonoAudioBlockBuffer> = Vec::new();
    outs.push(MonoAudioBlockBuffer::new());
    node.process(&proc_info(0, true), &transport(), &ins, &mut outs, &Vec::new(), &mut Vec::new());
    let mut i: usize = 0;
    while i < MAX_BLOCK_SIZE {
        assert_eq!(outs[0].get(i), 0);
        i += 1;
    }
}

#[test]
fn port_counts_match_declaration() {
    let (node, _handle) = MonoGainNode::new(0, -60_000, 12_000, SampleRate(48_000)).unwrap();
    assert_eq!(node.mono_audio_in_ports(), 1);
    assert_eq!(node.mono_audio_out_ports(), 1);
    assert_eq!(node.stereo_audio_in_ports(), 0);
    assert_eq!(node.stereo_audio_out_ports(), 0);
    let (snode, _shandle) = StereoGainNode::new(0, -60_000, 12_000, SampleRate(48_000)).unwrap();
    assert_eq!(snode.mono_audio_in_ports(), 0);
    assert_eq!(snode.mono_audio_out_ports(), 0);
    assert_eq!(snode.stereo_audio_in_ports(), 1);
    assert_eq!(snode.stereo_audio_out_ports(), 1);
}

#[test]
fn invalid_gain_bounds_are_rejected_at_construction() {
    let r = MonoGainNode::new(0, 12_000, -60_000, SampleRate(48_000));
    assert!(matches!(r, Err(ParamError::InvalidBounds)));
    let r2 = StereoGainNode::new(0, -60_000, 12_000, SampleRate(0));
    assert!(matches!(r2, Err(ParamError::InvalidSampleRate)));
}
