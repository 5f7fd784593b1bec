use sound_test::SAMPLE_SCALE;
use sound_test::render::{sample_to_i16, sample_to_u16};

#[test]
fn u16_maps_silence_to_the_midpoint() {
    // round((0 * 0.5 + 0.5) * 65535) = round(32767.5) = 32768.
    assert_eq!(sample_to_u16(0), 32768);
}

#[test]
fn u16_maps_the_extremes_to_the_rails() {
    assert_eq!(sample_to_u16(SAMPLE_SCALE), 65535);
    assert_eq!(sample_to_u16(-SAMPLE_SCALE), 0);
}

#[test]
fn u16_clamps_beyond_full_scale() {
    assert_eq!(sample_to_u16(3 * SAMPLE_SCALE), 65535);
    assert_eq!(sample_to_u16(-3 * SAMPLE_SCALE), 0);
    assert_eq!(sample_to_u16(i64::MAX), 65535);
    assert_eq!(sample_to_u16(i64::MIN), 0);
}

#[test]
fn u16_rounds_to_nearest() {
    // One unsigned 16-bit unit spans 2/65535 of full scale; a nudge of
    // 40000 Q30 units either way is a bit over one unit.
    assert_eq!(sample_to_u16(40000), 32769);
    assert_eq!(sample_to_u16(-40000), 32766);
    assert_eq!(sample_to_u16(SAMPLE_SCALE / 2), 49151);
}

#[test]
fn i16_maps_silence_and_the_rails_exactly() {
    assert_eq!(sample_to_i16(0), 0);
    assert_eq!(sample_to_i16(SAMPLE_SCALE), 32767);
    assert_eq!(sample_to_i16(-SAMPLE_SCALE), -32767);
}

#[test]
fn i16_rounds_half_away_from_zero() {
    // Half scale: round(0.5 * 32767) = round(16383.5) = 16384.
    assert_eq!(sample_to_i16(SAMPLE_SCALE / 2), 16384);
    assert_eq!(sample_to_i16(-SAMPLE_SCALE / 2), -16384);
}

#[test]
fn i16_clamps_beyond_full_scale() {
    assert_eq!(sample_to_i16(2 * SAMPLE_SCALE), 32767);
    assert_eq!(sample_to_i16(-2 * SAMPLE_SCALE), -32767);
    assert_eq!(sample_to_i16(i64::MAX), 32767);
    assert_eq!(sample_to_i16(i64::MIN), -32767);
}

#[test]
fn conversions_are_monotone_over_the_scale() {
    let mut last_u: u16 = 0;
    let mut last_i: i16 = i16::MIN;
    let mut v: i64 = -SAMPLE_SCALE;
    while v <= SAMPLE_SCALE {
        let u = sample_to_u16(v);
        let i = sample_to_i16(v);
        assert!(u >= last_u);
        assert!(i >= last_i);
        last_u = u;
        last_i = i;
        v += SAMPLE_SCALE / 128;
    }
}
