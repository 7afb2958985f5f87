use audio_core::db::db_to_amp;
use audio_core::fixed::mul_fp;
use audio_core::{AMP_SCALE, MAX_DB_M, MIN_DB_M};

#[test]
fn zero_db_is_exactly_unity() {
    assert_eq!(db_to_amp(0), AMP_SCALE);
}

#[test]
fn whole_decades_are_exact() {
    assert_eq!(db_to_amp(20_000), 10 * AMP_SCALE);
    assert_eq!(db_to_amp(-20_000), AMP_SCALE / 10);
    assert_eq!(db_to_amp(-40_000), AMP_SCALE / 100);
    assert_eq!(db_to_amp(-60_000), AMP_SCALE / 1_000);
}

#[test]
fn fractional_decibels_are_close() {
    // -6 dB is 10^(-0.3), about 0.501187.
    let a: f64 = db_to_amp(-6_000) as f64 / AMP_SCALE as f64;
    assert!((a - 0.501187).abs() < 1e-4);
    // +6 dB is about 1.995262.
    let b: f64 = db_to_amp(6_000) as f64 / AMP_SCALE as f64;
    assert!((b - 1.995262).abs() < 1e-4);
    // -3 dB is about 0.707946.
    let c: f64 = db_to_amp(-3_000) as f64 / AMP_SCALE as f64;
    assert!((c - 0.707946).abs() < 1e-4);
    // +12 dB is about 3.981072.
    let d: f64 = db_to_amp(12_000) as f64 / AMP_SCALE as f64;
    assert!((d - 3.981072).abs() < 1e-4);
}

#[test]
fn mapping_is_monotonic_over_the_supported_range() {
    let mut db: i64 = MIN_DB_M;
    let mut prev: i64 = -1;
    while db <= MAX_DB_M {
        let a: i64 = db_to_amp(db);
        assert!(a >= prev);
        prev = a;
        db += 500;
    }
}

#[test]
fn fixed_point_multiply_truncates_toward_zero() {
    assert_eq!(mul_fp(1_000_000, 500_000), 500_000);
    assert_eq!(mul_fp(-1_000_000, 500_000), -500_000);
    assert_eq!(mul_fp(3, 500_000), 1);
    assert_eq!(mul_fp(-3, 500_000), -1);
    assert_eq!(mul_fp(999_999, 1), 0);
    assert_eq!(mul_fp(123_456, AMP_SCALE), 123_456);
}
