//! A small real-time audio synthesis core, verified with Verus.
//!
//! The crate generates periodic waveforms (sine recurrence, sawtooth,
//! wavetable lookup), filters them with a second-order recursive filter,
//! and mixes a fixed number of simultaneous voices in response to
//! note-on/note-off events.
//!
//! All signal values are fixed-point numbers: one sample is an `i64`
//! holding the real value scaled by [`SAMPLE_SCALE`] (Q30 format), and a
//! frequency is a `u64` in millihertz. The audio backend converts these
//! to its own sample format at the very edge (see the conversion helpers
//! in [`render`]).

use vstd::prelude::*;

pub mod errors;
pub mod midi;
pub mod trig;
pub mod biquad;
pub mod saw;
pub mod sine;
pub mod wavetable;
pub mod voice;
pub mod render;

verus! {

/// Fixed-point scale for one sample: a real value `v` in [-1, 1] is stored
/// as `v * SAMPLE_SCALE` rounded to an integer (Q30 fixed point).
pub const SAMPLE_SCALE: i64 = 1073741824;

/// Highest sample rate (Hz) the fixed-point phase arithmetic supports.
pub const MAX_SAMPLE_RATE: u64 = 1000000;

/// Drop the Q30 scale from a fixed-point product, truncating toward
/// zero as the executable division does.
pub open spec fn descale(v: int) -> int {
    if v >= 0 {
        v / SAMPLE_SCALE as int
    } else {
        -((-v) / SAMPLE_SCALE as int)
    }
}

/// Parameters an oscillator accepts: a sample rate in the supported
/// range and a positive frequency below the Nyquist limit (half the
/// sample rate), both in fixed-point units (millihertz and hertz).
pub open spec fn osc_params_valid(frequency_millihz: int, sample_rate: int) -> bool {
    &&& 1 <= sample_rate <= MAX_SAMPLE_RATE
    &&& 1 <= frequency_millihz
    &&& 2 * frequency_millihz < sample_rate * 1000
}

} // verus!
