use audio_core::param::{Param, ParamError, SampleRate, Unit};
use audio_core::AMP_SCALE;

#[test]
fn clamp_below_min_stores_min() {
    let (mut param, handle) =
        Param::from_value(0, -60_000, 12_000, Unit::Decibels, 10, SampleRate(48_000)).unwrap();
    // A raw value far below the lower bound publishes the bound itself.
    handle.set(-1_000_000);
    let expected: i64 = handle.target_for(-60_000);
    assert_eq!(handle.target_for(-1_000_000), expected);
    // Drive the ramp to completion and observe the stored target.
    let mut blocks: usize = 0;
    while blocks < 500 {
        param.smoothed(128);
        blocks += 1;
    }
    assert_eq!(param.values()[0], expected);
}

#[test]
fn clamp_above_max_stores_max() {
    let (mut param, handle) =
        Param::from_value(0, -60_000, 12_000, Unit::Decibels, 10, SampleRate(48_000)).unwrap();
    handle.set(99_000_000);
    let expected: i64 = handle.target_for(12_000);
    assert_eq!(handle.target_for(99_000_000), expected);
    let mut blocks: usize = 0;
    while blocks < 500 {
        param.smoothed(128);
        blocks += 1;
    }
    assert_eq!(param.values()[0], expected);
}

#[test]
fn in_range_value_is_not_clamped() {
    let (_param, handle) =
        Param::from_value(0, -60_000, 12_000, Unit::Generic, 10, SampleRate(48_000)).unwrap();
    // Generic unit: the mapping is the identity, so the published target is
    // the raw value itself whenever it is in range.
    assert_eq!(handle.target_for(-1_234), -1_234);
    assert_eq!(handle.target_for(7), 7);
}

#[test]
fn equal_bounds_pin_every_target() {
    let (_param, handle) =
        Param::from_value(0, 5_000, 5_000, Unit::Generic, 10, SampleRate(48_000)).unwrap();
    assert_eq!(handle.target_for(-100), 5_000);
    assert_eq!(handle.target_for(5_000), 5_000);
    assert_eq!(handle.target_for(100_000), 5_000);
}

#[test]
fn invalid_bounds_rejected() {
    let r = Param::from_value(0, 10, -10, Unit::Generic, 10, SampleRate(48_000));
    assert_eq!(r.err().unwrap(), ParamError::InvalidBounds);
}

#[test]
fn unsupported_range_rejected() {
    let r = Param::from_value(0, -200_000, 12_000, Unit::Decibels, 10, SampleRate(48_000));
    assert_eq!(r.err().unwrap(), ParamError::UnsupportedRange);
}

#[test]
fn zero_sample_rate_rejected() {
    let r = Param::from_value(0, -60_000, 12_000, Unit::Decibels, 10, SampleRate(0));
    assert_eq!(r.err().unwrap(), ParamError::InvalidSampleRate);
}

#[test]
fn zero_smoothing_rejected() {
    let r = Param::from_value(0, -60_000, 12_000, Unit::Decibels, 0, SampleRate(48_000));
    assert_eq!(r.err().unwrap(), ParamError::InvalidSmoothing);
}

#[test]
fn ramp_reaches_target_after_time_constant() {
    // 10 ms at 48 kHz: the ramp takes exactly 480 samples.
    let (mut param, handle) =
        Param::from_value(0, -1_000_000, 1_000_000, Unit::Generic, 10, SampleRate(48_000))
            .unwrap();
    assert_eq!(param.ramp_frames(), 480);
    assert!(param.is_settled());
    handle.set(480_000);
    // Block 1..=3 (384 samples) are still ramping.
    let mut b: usize = 0;
    while b < 3 {
        let smoothing: bool = param.smoothed(128);
        assert!(smoothing);
        b += 1;
    }
    // Block 4 crosses sample 480: the last samples rest on the target.
    let smoothing4: bool = param.smoothed(128);
    assert!(smoothing4);
    assert_eq!(param.values()[127], 480_000);
    assert!(param.is_settled());
    // Every later block is constant and reports "not smoothing".
    let smoothing5: bool = param.smoothed(128);
    assert!(!smoothing5);
    let mut k: usize = 0;
    while k < 128 {
        assert_eq!(param.values()[k], 480_000);
        k += 1;
    }
}

#[test]
fn ramp_is_monotonic_and_linear() {
    // 1 ms at 4 kHz: a 4-sample ramp from 0 to 400.
    let (mut param, handle) =
        Param::from_value(0, 0, 1_000_000, Unit::Generic, 1, SampleRate(4_000)).unwrap();
    handle.set(400);
    let smoothing: bool = param.smoothed(8);
    assert!(smoothing);
    assert_eq!(param.values()[0], 100);
    assert_eq!(param.values()[1], 200);
    assert_eq!(param.values()[2], 300);
    assert_eq!(param.values()[3], 400);
    assert_eq!(param.values()[4], 400);
    assert_eq!(param.values()[7], 400);
}

#[test]
fn reaimed_ramp_starts_from_current_value() {
    // 1 ms at 4 kHz: 4-sample ramps.
    let (mut param, handle) =
        Param::from_value(0, 0, 1_000_000, Unit::Generic, 1, SampleRate(4_000)).unwrap();
    handle.set(400);
    param.smoothed(2);
    assert_eq!(param.values()[1], 200);
    // The target changes mid-ramp: the new ramp starts where the old one
    // stopped (200) and heads for the new target over a full 4 samples.
    handle.set(1_000);
    let smoothing: bool = param.smoothed(4);
    assert!(smoothing);
    assert_eq!(param.values()[0], 400);
    assert_eq!(param.values()[1], 600);
    assert_eq!(param.values()[2], 800);
    assert_eq!(param.values()[3], 1_000);
}

#[test]
fn settled_parameter_reports_not_smoothing() {
    let (mut param, _handle) =
        Param::from_value(7_000, 0, 1_000_000, Unit::Generic, 10, SampleRate(48_000)).unwrap();
    // Freshly constructed parameters rest on their initial value.
    let smoothing: bool = param.smoothed(64);
    assert!(!smoothing);
    let mut k: usize = 0;
    while k < 64 {
        assert_eq!(param.values()[k], 7_000);
        k += 1;
    }
}

#[test]
fn set_normalized_maps_linearly_onto_bounds() {
    let (_param, handle) =
        Param::from_value(0, -60_000, 12_000, Unit::Generic, 10, SampleRate(48_000)).unwrap();
    assert_eq!(handle.raw_for_normalized(0), -60_000);
    assert_eq!(handle.raw_for_normalized(AMP_SCALE), 12_000);
    assert_eq!(handle.raw_for_normalized(AMP_SCALE / 2), -24_000);
    // Out-of-range knob positions clamp to the ends.
    assert_eq!(handle.raw_for_normalized(-5), -60_000);
    assert_eq!(handle.raw_for_normalized(2 * AMP_SCALE), 12_000);
}

#[test]
fn zero_frames_is_a_no_op() {
    let (mut param, handle) =
        Param::from_value(0, 0, 1_000_000, Unit::Generic, 1, SampleRate(4_000)).unwrap();
    handle.set(400);
    // A zero-frame block samples the target but produces nothing and
    // consumes no ramp steps.
    param.smoothed(0);
    let smoothing: bool = param.smoothed(4);
    assert!(smoothing);
    assert_eq!(param.values()[0], 100);
    assert_eq!(param.values()[3], 400);
}
