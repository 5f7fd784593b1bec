//! Converting mixed Q30 samples to the audio backend's integer sample
//! formats.
//!
//! The mixed value is nominally within one full scale; anything beyond
//! is clamped before conversion. The formulas are the backend contract:
//! `u16 = round((v * 0.5 + 0.5) * 65535)` and `i16 = round(v * 32767)`,
//! evaluated exactly in integers over the Q30 representation. The
//! 32-bit float format takes the normalized value unchanged, so its
//! conversion is a plain division by the scale at the backend edge and
//! needs nothing from this module.

use vstd::prelude::*;
use crate::SAMPLE_SCALE;

verus! {

/// Clamp a sample into one full scale, `[-1, 1]` in Q30.
pub open spec fn clamp_full_scale(v: int) -> int {
    if v > SAMPLE_SCALE {
        SAMPLE_SCALE as int
    } else if v < -SAMPLE_SCALE {
        -SAMPLE_SCALE as int
    } else {
        v
    }
}

/// `round((v * 0.5 + 0.5) * 65535)`: the clamped sample moved to
/// `[0, 2]`, scaled to the unsigned 16-bit range, rounded half up.
pub open spec fn sample_to_u16_spec(v: int) -> int {
    ((clamp_full_scale(v) + SAMPLE_SCALE) * 65535 + SAMPLE_SCALE) / (2 * SAMPLE_SCALE)
}

/// `round(v * 32767)`: the clamped sample scaled to the signed 16-bit
/// range, rounded half away from zero.
pub open spec fn sample_to_i16_spec(v: int) -> int {
    let c = clamp_full_scale(v);
    if c >= 0 {
        (c * 32767 + SAMPLE_SCALE / 2) / SAMPLE_SCALE as int
    } else {
        -(((-c) * 32767 + SAMPLE_SCALE / 2) / SAMPLE_SCALE as int)
    }
}

/// Converts a mixed sample to the unsigned 16-bit backend format.
pub fn sample_to_u16(v: i64) -> (r: u16)
    ensures
        r as int == sample_to_u16_spec(v as int),
{
    let c: i64 = if v > SAMPLE_SCALE {
        SAMPLE_SCALE
    } else if v < -SAMPLE_SCALE {
        -SAMPLE_SCALE
    } else {
        v
    };
    let shifted: u64 = (c + SAMPLE_SCALE) as u64;
    let num: u64 = shifted * 65535 + SAMPLE_SCALE as u64;
    (num / (2 * SAMPLE_SCALE as u64)) as u16
}

/// Converts a mixed sample to the signed 16-bit backend format.
pub fn sample_to_i16(v: i64) -> (r: i16)
    ensures
        r as int == sample_to_i16_spec(v as int),
{
    let c: i64 = if v > SAMPLE_SCALE {
        SAMPLE_SCALE
    } else if v < -SAMPLE_SCALE {
        -SAMPLE_SCALE
    } else {
        v
    };
    if c >= 0 {
        let num: u64 = (c as u64) * 32767 + (SAMPLE_SCALE / 2) as u64;
        (num / SAMPLE_SCALE as u64) as i16
    } else {
        let num: u64 = ((-c) as u64) * 32767 + (SAMPLE_SCALE / 2) as u64;
        -((num / SAMPLE_SCALE as u64) as i16)
    }
}

} // verus!
