use sound_test::SAMPLE_SCALE;
use sound_test::biquad::BiquadFilter;
use sound_test::errors::SynthError;

#[test]
fn zero_coefficients_map_everything_to_silence() {
    let mut f = BiquadFilter::new(0, 0, 0, 0, 0);
    let inputs: Vec<i64> = vec![0, 1, -1, 12345, -987654321, SAMPLE_SCALE, -SAMPLE_SCALE, i64::MAX, i64::MIN];
    for x in inputs {
        assert_eq!(f.step(x), 0);
    }
}

#[test]
fn default_filter_is_all_zero() {
    let mut f = BiquadFilter::default();
    assert_eq!(f.b0, 0);
    assert_eq!(f.a2, 0);
    assert_eq!(f.step(123456789), 0);
}

#[test]
fn unit_b0_is_the_identity_inside_full_scale() {
    let mut f = BiquadFilter::new(SAMPLE_SCALE, 0, 0, 0, 0);
    for x in [0i64, 1, -1, 500000, -500000, SAMPLE_SCALE, -SAMPLE_SCALE] {
        assert_eq!(f.step(x), x);
    }
}

#[test]
fn unit_b1_delays_by_one_sample() {
    let mut f = BiquadFilter::new(0, SAMPLE_SCALE, 0, 0, 0);
    assert_eq!(f.step(111), 0);
    assert_eq!(f.step(222), 111);
    assert_eq!(f.step(333), 222);
}

#[test]
fn step_buffer_matches_stepping_one_by_one() {
    let xs: Vec<i64> = vec![5, -7, 1000, 0, 42, -42, 99999];
    let mut a = BiquadFilter::new(100, -200, 300, 50, -60);
    let mut b = BiquadFilter::new(100, -200, 300, 50, -60);
    let ys = a.step_buffer(&xs);
    assert_eq!(ys.len(), xs.len());
    for (i, x) in xs.iter().enumerate() {
        assert_eq!(ys[i], b.step(*x));
    }
}

#[test]
fn low_pass_rejects_zero_quality() {
    assert_eq!(
        BiquadFilter::low_pass(200000, 44100, 0),
        Err(SynthError::InvalidParameter)
    );
}

#[test]
fn low_pass_rejects_zero_sample_rate() {
    assert_eq!(
        BiquadFilter::low_pass(200000, 0, 100),
        Err(SynthError::InvalidParameter)
    );
}

#[test]
fn low_pass_rejects_cutoff_at_nyquist() {
    // 22050 Hz is exactly half of 44100 Hz.
    assert_eq!(
        BiquadFilter::low_pass(22050000, 44100, 100),
        Err(SynthError::InvalidParameter)
    );
}

#[test]
fn high_pass_rejects_the_same_parameters() {
    assert_eq!(BiquadFilter::high_pass(1, 44100, 0), Err(SynthError::InvalidParameter));
    assert_eq!(BiquadFilter::high_pass(1, 0, 100), Err(SynthError::InvalidParameter));
    assert_eq!(
        BiquadFilter::high_pass(22050000, 44100, 100),
        Err(SynthError::InvalidParameter)
    );
}

#[test]
fn low_pass_coefficients_for_200_hz_at_44100() {
    // Cutoff 200 Hz, quality 0.1: the exact fixed-point cookbook values.
    let f = BiquadFilter::low_pass(200000, 44100, 100).unwrap();
    assert_eq!(f.b0, 192884);
    assert_eq!(f.b1, 385770);
    assert_eq!(f.b2, 192884);
    assert_eq!(f.a1, -1875005891);
    assert_eq!(f.a2, 802035608);
    assert_eq!(f.xn_1, 0);
    assert_eq!(f.yn_2, 0);
}

#[test]
fn high_pass_coefficients_for_200_hz_at_44100() {
    let f = BiquadFilter::high_pass(200000, 44100, 100).unwrap();
    assert_eq!(f.b0, 937695830);
    assert_eq!(f.b1, -1875391662);
    assert_eq!(f.b2, 937695830);
    assert_eq!(f.a1, -1875005891);
    assert_eq!(f.a2, 802035608);
}

#[test]
fn low_pass_attenuates_alternating_input_more_than_constant_input() {
    // A crude spectral check: at a 200 Hz cutoff, a Nyquist-rate
    // alternation should come out far smaller than a direct-current
    // input of the same amplitude.
    let mut lp = BiquadFilter::low_pass(200000, 44100, 707).unwrap();
    let mut dc_out: i64 = 0;
    for _ in 0..2000 {
        dc_out = lp.step(SAMPLE_SCALE / 2);
    }
    let mut lp2 = BiquadFilter::low_pass(200000, 44100, 707).unwrap();
    let mut sign: i64 = 1;
    let mut alt_peak: i64 = 0;
    for _ in 0..2000 {
        let alt_out = lp2.step(sign * (SAMPLE_SCALE / 2));
        sign = -sign;
        if alt_out.abs() > alt_peak {
            alt_peak = alt_out.abs();
        }
    }
    assert!(dc_out > SAMPLE_SCALE / 4, "direct current should pass: {}", dc_out);
    assert!(alt_peak < SAMPLE_SCALE / 64, "alternation should be attenuated: {}", alt_peak);
}
