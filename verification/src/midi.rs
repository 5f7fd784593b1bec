//! MIDI note numbers, transposition, and the equal-temperament pitch
//! mapping from note number to frequency.
//!
//! Frequencies are integers in millihertz. The mapping is the
//! equal-temperament formula `a4 * 2^((note - 69) / 12)`, evaluated in
//! fixed point: one table of the twelve semitone ratios scaled by `2^32`,
//! an octave shift, and a final rounding division. The result is within
//! one millihertz of the real-valued formula, far inside audible
//! tolerance.

use vstd::prelude::*;
use vstd::arithmetic::power2::{pow2, lemma_pow2_unfold, lemma_pow2_strictly_increases, lemma2_to64, lemma2_to64_rest};
use vstd::arithmetic::div_mod::{lemma_add_mod_noop_right, lemma_small_mod};

verus! {

/// Default concert pitch: A4 = 440 Hz, in millihertz.
pub const DEFAULT_A4_MILLIHZ: u64 = 440000;

/// Largest supported tuning for A4 (millihertz); keeps the fixed-point
/// ratio product inside 64 bits.
pub const MAX_A4_MILLIHZ: u64 = 2000000000;

/// A struct representing a MIDI note
#[derive(Debug, Clone, Copy, PartialEq, Eq, Structural)]
pub struct MidiNote {
    pub note: u8,
}

/// Ratio of the `s`-th semitone above a reference pitch, `2^(s/12)`,
/// scaled by `2^32` and rounded to the nearest integer.
pub open spec fn semitone_ratio(s: int) -> int {
    if s == 0 {
        4294967296
    } else if s == 1 {
        4550359342
    } else if s == 2 {
        4820937788
    } else if s == 3 {
        5107605667
    } else if s == 4 {
        5411319705
    } else if s == 5 {
        5733093519
    } else if s == 6 {
        6074001000
    } else if s == 7 {
        6435179895
    } else if s == 8 {
        6817835604
    } else if s == 9 {
        7223245206
    } else if s == 10 {
        7652761717
    } else {
        8107818609
    }
}

/// The note number after transposing by a number of semitones, reduced
/// into the eight-bit range the same way a two's-complement truncation
/// would.
pub open spec fn transposed_note(note: int, semitones: int) -> int {
    (note + semitones) % 256
}

/// Equal-temperament frequency of a note in millihertz, rounded to
/// nearest: `a4 * 2^((note - 69) / 12)`, computed as the semitone ratio
/// times the tuning, shifted by the octave distance from A4.
///
/// `note + 75` is `note - 69` moved up by twelve octaves so that the
/// octave/semitone split stays in unsigned range.
pub open spec fn freq_millihz(note: int, a4: int) -> int {
    let m = note + 75;
    let s = m % 12;
    let shift = 44 - m / 12;
    (a4 * semitone_ratio(s) + pow2((shift - 1) as nat)) / pow2(shift as nat) as int
}

impl MidiNote {
    pub fn new(note: u8) -> (r: Self)
        ensures
            r.note == note,
    {
        MidiNote { note }
    }

    /// Returns a new MidiNote corresponding to this note transposed by
    /// the given number of semitones.
    ///
    /// The sum wraps around the eight-bit note range; clamping to a
    /// musically sensible window is the caller's policy.
    pub fn transpose(self, semitones: i8) -> (r: Self)
        ensures
            r.note as int == transposed_note(self.note as int, semitones as int),
    {
        let sum: i16 = self.note as i16 + semitones as i16;
        let wrapped: i16 = if sum < 0 {
            sum + 256
        } else if sum > 255 {
            sum - 256
        } else {
            sum
        };
        MidiNote { note: wrapped as u8 }
    }

    /// Converts this MIDI note into its associated frequency in
    /// millihertz, using the default A4 = 440 Hz tuning.
    pub fn to_frequency(self) -> (r: u64)
        ensures
            r as int == freq_millihz(self.note as int, DEFAULT_A4_MILLIHZ as int),
    {
        self.to_frequency_different_tuning(DEFAULT_A4_MILLIHZ)
    }

    /// Converts this MIDI note into its associated frequency in
    /// millihertz with the given A4 base frequency (instead of the
    /// default 440 Hz).
    pub fn to_frequency_different_tuning(self, a4_tuning_millihz: u64) -> (r: u64)
        requires
            a4_tuning_millihz <= MAX_A4_MILLIHZ,
        ensures
            r as int == freq_millihz(self.note as int, a4_tuning_millihz as int),
    {
        let m: u64 = self.note as u64 + 75;
        let s: u64 = m % 12;
        let shift: u64 = 44 - m / 12;
        let ratio: u64 = semitone_ratio_at(s);
        let scaled: u128 = a4_tuning_millihz as u128 * ratio as u128;
        let divisor: u128 = pow2_exec(shift);
        let half: u128 = pow2_exec(shift - 1);
        proof {
            assert(scaled <= 2000000000 * 8107818609) by (nonlinear_arith)
                requires
                    scaled == a4_tuning_millihz * ratio,
                    a4_tuning_millihz <= 2000000000,
                    0 <= ratio <= 8107818609,
            ;
            lemma2_to64_rest();
            vstd::arithmetic::power2::lemma_pow2_pos(shift as nat);
            lemma_pow2_strictly_increases((shift - 1) as nat, 38);
            lemma_div_le(scaled as int + half as int, divisor as int, 18446744073709551615);
        }
        let r128: u128 = (scaled + half) / divisor;
        r128 as u64
    }
}

/// Law: transposing by some number of semitones and then back by the
/// same number returns the original note, for every eight-bit note.
pub proof fn lemma_transpose_round_trip(note: int, semitones: int)
    requires
        0 <= note < 256,
    ensures
        transposed_note(transposed_note(note, semitones), -semitones) == note,
{
    lemma_add_mod_noop_right(-semitones, note + semitones, 256);
    lemma_small_mod(note as nat, 256);
}

/// Semitone ratio lookup, `semitone_ratio` run on an index in 0..12.
fn semitone_ratio_at(s: u64) -> (r: u64)
    requires
        s < 12,
    ensures
        r as int == semitone_ratio(s as int),
{
    if s == 0 {
        4294967296
    } else if s == 1 {
        4550359342
    } else if s == 2 {
        4820937788
    } else if s == 3 {
        5107605667
    } else if s == 4 {
        5411319705
    } else if s == 5 {
        5733093519
    } else if s == 6 {
        6074001000
    } else if s == 7 {
        6435179895
    } else if s == 8 {
        6817835604
    } else if s == 9 {
        7223245206
    } else if s == 10 {
        7652761717
    } else {
        8107818609
    }
}

/// `2^e` for a small exponent, as a 128-bit integer.
fn pow2_exec(e: u64) -> (r: u128)
    requires
        e <= 64,
    ensures
        r as int == pow2(e as nat),
{
    proof {
        lemma2_to64();
    }
    let mut p: u128 = 1;
    let mut j: u64 = 0;
    while j < e
        invariant
            j <= e <= 64,
            p as int == pow2(j as nat),
        decreases e - j,
    {
        proof {
            lemma2_to64();
            if (j as nat) < 64 {
                lemma_pow2_strictly_increases(j as nat, 64);
            }
            lemma_pow2_unfold((j + 1) as nat);
        }
        p = p * 2;
        j = j + 1;
    }
    p
}

/// If `0 <= n <= c` and `d >= 1`, then `n / d <= c`.
proof fn lemma_div_le(n: int, d: int, c: int)
    requires
        d >= 1,
        0 <= n,
        n <= c,
    ensures
        n / d <= c,
{
    assert(n / d <= c) by (nonlinear_arith)
        requires
            d >= 1,
            0 <= n <= c,
    ;
}

} // verus!
