use sound_test::SAMPLE_SCALE;
use sound_test::errors::SynthError;
use sound_test::sine::SineOscillator;

#[test]
fn sine_new_rejects_invalid_parameters() {
    assert_eq!(SineOscillator::new(0, 44100), Err(SynthError::InvalidParameter));
    assert_eq!(SineOscillator::new(440000, 0), Err(SynthError::InvalidParameter));
    assert_eq!(SineOscillator::new(22050000, 44100), Err(SynthError::InvalidParameter));
}

#[test]
fn new_cooks_the_exact_coefficient_and_seeds() {
    // 440 Hz at 44100 Hz: the exact fixed-point recurrence constants.
    let o = SineOscillator::new(440000, 44100).unwrap();
    assert_eq!(o.epsilon, 68420240);
    assert_eq!(o.yn_1, -68263480);
    assert_eq!(o.yqn_1, -135817904);
    assert_eq!(o.get_frequency(), 440000);
    assert_eq!(o.get_sample_rate(), 44100);
}

#[test]
fn first_step_is_exact() {
    let mut o = SineOscillator::new(440000, 44100).unwrap();
    let (y, yq) = o.step();
    assert_eq!(y, -76640797);
    assert_eq!(yq, -131468066);
}

#[test]
fn recurrence_tracks_its_real_valued_model() {
    // The fixed-point step must follow the same recurrence computed in
    // doubles, using the same coefficient and seeds; the only
    // divergence is sub-microscopic truncation per step.
    let mut o = SineOscillator::new(440000, 44100).unwrap();
    let s = SAMPLE_SCALE as f64;
    let eps = o.epsilon as f64 / s;
    let mut y = o.yn_1 as f64 / s;
    let mut yq = o.yqn_1 as f64 / s;
    for n in 0..1000 {
        let (fy, fyq) = o.step();
        yq = yq - eps * y;
        y = eps * yq + y;
        assert!(
            (fy as f64 / s - y).abs() < 1e-4,
            "sine register diverged at step {}: {} vs {}",
            n,
            fy as f64 / s,
            y
        );
        assert!((fyq as f64 / s - yq).abs() < 1e-4);
    }
}

#[test]
fn amplitude_stays_bounded_over_a_long_run() {
    let mut o = SineOscillator::new(1000000, 48000).unwrap();
    for _ in 0..50000 {
        let (y, yq) = o.step();
        assert!((y.abs() as i128) < 2 * SAMPLE_SCALE as i128);
        assert!((yq.abs() as i128) < 2 * SAMPLE_SCALE as i128);
    }
}

#[test]
fn output_oscillates_near_the_requested_period() {
    // 441 Hz at 44100 Hz is 100 samples per cycle: count zero
    // crossings over 10000 samples; there should be close to 200.
    let mut o = SineOscillator::new(441000, 44100).unwrap();
    let mut crossings = 0;
    let mut last = o.step().0;
    for _ in 0..10000 {
        let (y, _) = o.step();
        if (last < 0 && y >= 0) || (last >= 0 && y < 0) {
            crossings += 1;
        }
        last = y;
    }
    assert!(
        (195..=205).contains(&crossings),
        "expected about 200 zero crossings, got {}",
        crossings
    );
}

#[test]
fn set_frequency_rejects_nyquist_and_keeps_state() {
    let mut o = SineOscillator::new(440000, 44100).unwrap();
    let eps0 = o.epsilon;
    assert_eq!(o.set_frequency(30000000), Err(SynthError::InvalidParameter));
    assert_eq!(o.get_frequency(), 440000);
    assert_eq!(o.epsilon, eps0);
    assert_eq!(o.set_frequency(880000), Ok(()));
    assert_eq!(o.get_frequency(), 880000);
    assert!(o.epsilon > eps0);
}

#[test]
fn set_sample_rate_recooks_for_the_new_rate() {
    let mut o = SineOscillator::new(440000, 44100).unwrap();
    assert_eq!(o.set_sample_rate(48000), Ok(()));
    assert_eq!(o.get_sample_rate(), 48000);
    assert_eq!(o.get_frequency(), 440000);
    // A rate that puts the current frequency past Nyquist is refused.
    let mut hi = SineOscillator::new(400000000, 1000000).unwrap();
    assert_eq!(hi.set_sample_rate(700), Err(SynthError::InvalidParameter));
    assert_eq!(hi.get_sample_rate(), 1000000);
}
