use sound_test::SAMPLE_SCALE;
use sound_test::errors::SynthError;
use sound_test::saw::SawOscillator;

#[test]
fn saw_new_rejects_invalid_parameters() {
    assert_eq!(SawOscillator::new(0, 44100), Err(SynthError::InvalidParameter));
    assert_eq!(SawOscillator::new(440000, 0), Err(SynthError::InvalidParameter));
    // At the Nyquist limit: 22050 Hz at a 44100 Hz rate.
    assert_eq!(SawOscillator::new(22050000, 44100), Err(SynthError::InvalidParameter));
    // Above the supported sample-rate range.
    assert_eq!(SawOscillator::new(440000, 2000000), Err(SynthError::InvalidParameter));
}

#[test]
fn new_starts_idle_at_phase_zero() {
    let mut o = SawOscillator::new(440000, 44100).unwrap();
    assert!(!o.is_playing());
    assert_eq!(o.get_frequency(), 440000);
    assert_eq!(o.get_sample_rate(), 44100);
    assert_eq!(o.step(), 0);
    assert_eq!(o.step(), 0);
}

#[test]
fn first_step_output_is_exact() {
    // 441 Hz at 44100 Hz: after one step the phase is 441000 of
    // 44100000, and the output is the exact Q30 ramp value.
    let mut o = SawOscillator::new(441000, 44100).unwrap();
    o.note_on(441000).unwrap();
    assert_eq!(o.step(), -1052266988);
}

#[test]
fn phase_is_periodic_when_frequency_divides_the_rate() {
    // 441 Hz at 44100 Hz: exactly 100 samples per cycle, so outputs
    // repeat with period 100 — bit for bit, the phase is rational.
    let mut o = SawOscillator::new(441000, 44100).unwrap();
    o.note_on(441000).unwrap();
    let first: Vec<i64> = (0..100).map(|_| o.step()).collect();
    let second: Vec<i64> = (0..100).map(|_| o.step()).collect();
    assert_eq!(first, second);
}

#[test]
fn output_stays_inside_full_scale() {
    let mut o = SawOscillator::new(777000, 48000).unwrap();
    o.note_on(777000).unwrap();
    for _ in 0..10000 {
        let v = o.step();
        assert!(-SAMPLE_SCALE <= v && v < SAMPLE_SCALE);
    }
}

#[test]
fn set_frequency_rejects_nyquist_and_keeps_prior() {
    let mut o = SawOscillator::new(440000, 44100).unwrap();
    assert_eq!(o.set_frequency(22050000), Err(SynthError::InvalidParameter));
    assert_eq!(o.get_frequency(), 440000);
    assert_eq!(o.set_frequency(880000), Ok(()));
    assert_eq!(o.get_frequency(), 880000);
}

#[test]
fn note_off_silences_without_resetting_frequency() {
    let mut o = SawOscillator::new(440000, 44100).unwrap();
    o.note_on(550000).unwrap();
    assert!(o.is_playing());
    let _ = o.step();
    o.note_off();
    assert!(!o.is_playing());
    assert_eq!(o.get_frequency(), 550000);
    assert_eq!(o.step(), 0);
}

#[test]
fn ramp_rises_between_wraps() {
    // 4410 Hz at 44100 Hz: ten samples per cycle; the ramp must rise
    // nine times, then wrap once.
    let mut o = SawOscillator::new(4410000, 44100).unwrap();
    o.note_on(4410000).unwrap();
    let outs: Vec<i64> = (0..10).map(|_| o.step()).collect();
    for i in 0..8 {
        assert!(outs[i + 1] > outs[i], "ramp must rise at {}", i);
    }
    assert!(outs[9] < outs[8], "ramp must wrap at the period");
}
