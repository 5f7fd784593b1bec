use sound_test::midi::MidiNote;

#[test]
fn new_stores_note() {
    let n = MidiNote::new(64);
    assert_eq!(n.note, 64);
}

#[test]
fn transpose_up() {
    let note = MidiNote::new(64);
    assert_eq!(note.transpose(4), MidiNote::new(68));
}

#[test]
fn transpose_down() {
    let note = MidiNote::new(64);
    assert_eq!(note.transpose(-4), MidiNote::new(60));
}

#[test]
fn transpose_round_trip() {
    let note = MidiNote::new(64);
    assert_eq!(note.transpose(4).transpose(-4), MidiNote::new(64));
    let low = MidiNote::new(3);
    assert_eq!(low.transpose(-100).transpose(100), low);
    let high = MidiNote::new(250);
    assert_eq!(high.transpose(100).transpose(-100), high);
}

#[test]
fn transpose_wraps_like_an_eight_bit_sum() {
    assert_eq!(MidiNote::new(250).transpose(10), MidiNote::new(4));
    assert_eq!(MidiNote::new(3).transpose(-10), MidiNote::new(249));
}

#[test]
fn a4_maps_to_440_hz() {
    assert_eq!(MidiNote::new(69).to_frequency(), 440000);
}

#[test]
fn c4_maps_near_261_63_hz() {
    // Within 0.01 Hz (10 millihertz) of C4.
    let f = MidiNote::new(60).to_frequency();
    assert!(f >= 261620 && f <= 261640, "C4 frequency {} out of tolerance", f);
    assert_eq!(f, 261626);
}

#[test]
fn octaves_double_and_halve() {
    assert_eq!(MidiNote::new(81).to_frequency(), 880000);
    assert_eq!(MidiNote::new(57).to_frequency(), 220000);
}

#[test]
fn e4_and_gs4_frequencies() {
    assert_eq!(MidiNote::new(64).to_frequency(), 329628);
    assert_eq!(MidiNote::new(68).to_frequency(), 415305);
}

#[test]
fn different_tuning_moves_the_reference() {
    assert_eq!(MidiNote::new(69).to_frequency_different_tuning(442000), 442000);
    assert_eq!(MidiNote::new(69).to_frequency_different_tuning(440000), 440000);
}

#[test]
fn equality_is_by_note_number() {
    assert_eq!(MidiNote::new(10), MidiNote::new(10));
    assert_ne!(MidiNote::new(10), MidiNote::new(11));
}
