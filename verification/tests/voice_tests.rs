use sound_test::SAMPLE_SCALE;
use sound_test::errors::SynthError;
use sound_test::voice::VoicePool;
use sound_test::wavetable::{WaveShape, WaveTable};

fn saw_table() -> WaveTable {
    WaveTable::build(WaveShape::Saw, 512).unwrap()
}

#[test]
fn new_rejects_bad_parameters() {
    let t = saw_table();
    assert!(matches!(VoicePool::new(16, 0, &t), Err(SynthError::InvalidParameter)));
    assert!(matches!(VoicePool::new(16, 2000000, &t), Err(SynthError::InvalidParameter)));
    assert!(matches!(VoicePool::new(100000, 44100, &t), Err(SynthError::InvalidParameter)));
}

#[test]
fn a_new_pool_is_all_idle() {
    let t = saw_table();
    let p = VoicePool::new(16, 44100, &t).unwrap();
    assert_eq!(p.capacity(), 16);
    assert_eq!(p.active_count(), 0);
}

#[test]
fn seventeenth_note_on_has_no_observable_effect() {
    // A pool of capacity 16: sixteen note-ons with distinct
    // frequencies fill it; a seventeenth is dropped silently.
    let t = saw_table();
    let mut p = VoicePool::new(16, 44100, &t).unwrap();
    for k in 0..16u64 {
        p.note_on(440000 + k * 1000);
        assert_eq!(p.active_count(), (k + 1) as usize);
    }
    assert_eq!(p.active_count(), 16);
    p.note_on(999000);
    assert_eq!(p.active_count(), 16);
    // The seventeenth frequency took no slot: releasing it changes
    // nothing, while every original frequency still releases.
    p.note_off(999000);
    assert_eq!(p.active_count(), 16);
    p.note_off(440000);
    assert_eq!(p.active_count(), 15);
}

#[test]
fn note_off_releases_only_the_matching_frequency() {
    let t = saw_table();
    let mut p = VoicePool::new(4, 44100, &t).unwrap();
    p.note_on(440000);
    p.note_on(550000);
    assert_eq!(p.active_count(), 2);
    p.note_off(660000);
    assert_eq!(p.active_count(), 2);
    p.note_off(440000);
    assert_eq!(p.active_count(), 1);
    p.note_off(440000);
    assert_eq!(p.active_count(), 1);
    p.note_off(550000);
    assert_eq!(p.active_count(), 0);
}

#[test]
fn note_off_releases_one_voice_per_event() {
    // Two voices sounding the same frequency: each note-off releases
    // exactly one of them, in slot order.
    let t = saw_table();
    let mut p = VoicePool::new(4, 44100, &t).unwrap();
    p.note_on(440000);
    p.note_on(440000);
    assert_eq!(p.active_count(), 2);
    p.note_off(440000);
    assert_eq!(p.active_count(), 1);
    p.note_off(440000);
    assert_eq!(p.active_count(), 0);
}

#[test]
fn invalid_frequencies_are_dropped() {
    let t = saw_table();
    let mut p = VoicePool::new(4, 44100, &t).unwrap();
    p.note_on(0);
    p.note_on(22050000);
    assert_eq!(p.active_count(), 0);
}

#[test]
fn an_idle_pool_mixes_to_silence() {
    let t = saw_table();
    let mut p = VoicePool::new(8, 44100, &t).unwrap();
    for _ in 0..10 {
        assert_eq!(p.mix(), 0);
    }
}

#[test]
fn an_empty_pool_mixes_to_silence() {
    let t = saw_table();
    let mut p = VoicePool::new(0, 44100, &t).unwrap();
    assert_eq!(p.mix(), 0);
}

#[test]
fn one_square_voice_mixes_to_a_plateau() {
    let t = WaveTable::build(WaveShape::Square, 512).unwrap();
    let mut p = VoicePool::new(1, 44100, &t).unwrap();
    p.note_on(440000);
    // Early in the cycle the square table reads its high plateau.
    assert_eq!(p.mix(), SAMPLE_SCALE);
}

#[test]
fn idle_voices_dilute_the_mix() {
    // One playing square voice in a pool of two: the sum is one
    // plateau over two voices.
    let t = WaveTable::build(WaveShape::Square, 512).unwrap();
    let mut p = VoicePool::new(2, 44100, &t).unwrap();
    p.note_on(440000);
    assert_eq!(p.mix(), SAMPLE_SCALE / 2);
}

#[test]
fn mix_stays_inside_full_scale() {
    let t = saw_table();
    let mut p = VoicePool::new(16, 44100, &t).unwrap();
    for k in 0..16u64 {
        p.note_on(200000 + k * 37000);
    }
    for _ in 0..5000 {
        let v = p.mix();
        assert!(-SAMPLE_SCALE <= v && v <= SAMPLE_SCALE);
    }
}

#[test]
fn released_voices_can_be_reused() {
    let t = saw_table();
    let mut p = VoicePool::new(2, 44100, &t).unwrap();
    p.note_on(440000);
    p.note_on(550000);
    p.note_off(440000);
    p.note_on(660000);
    assert_eq!(p.active_count(), 2);
    p.note_off(660000);
    assert_eq!(p.active_count(), 1);
}
