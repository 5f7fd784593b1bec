//! A sine / cosine oscillator.
//!
//! Uses the Gordon-Smith digital-resonator difference equation: two Q30
//! registers hold the last sine and quadrature samples, and each step
//! rotates them by the coefficient `epsilon = 2 * sin(omega / 2)`,
//! where `omega` is the phase advance per sample. The recurrence is
//! numerically stable across the audible range; the registers are
//! saturated to [`REGISTER_LIMIT`] — four times full scale — so the
//! fixed-point arithmetic is total even under slow amplitude drift.

use vstd::prelude::*;
use crate::{SAMPLE_SCALE, descale, osc_params_valid};
use crate::errors::SynthError;
use crate::trig::{sin_half_cycle, sin_cycle, sin_half_cycle_spec, sin_cycle_spec};

verus! {

/// Saturation bound for the recurrence registers: four full scales.
pub const REGISTER_LIMIT: i64 = 4294967296;

#[derive(Debug, Clone, Copy, PartialEq, Eq, Structural)]
pub struct SineOscillator {
    /// The difference equation coefficient `2 * sin(omega / 2)` in Q30.
    pub epsilon: i64,
    /// Last sine sample (Q30).
    pub yn_1: i64,
    /// Last quadrature (cosine-phase) sample (Q30).
    pub yqn_1: i64,
    /// Frequency generated by this oscillator, in millihertz.
    pub frequency_millihz: u64,
    /// Sample rate of the audio stream, in hertz.
    pub sample_rate: u64,
}

/// The recurrence coefficient for a frequency `f/den` of the sample
/// rate: `2 * sin(pi * f/den)` in Q30.
pub open spec fn epsilon_spec(frequency_millihz: int, den: int) -> int {
    2 * sin_half_cycle_spec(frequency_millihz, den)
}

/// Saturate a register into `[-REGISTER_LIMIT, REGISTER_LIMIT]`.
pub open spec fn clamp_register(v: int) -> int {
    if v > REGISTER_LIMIT {
        REGISTER_LIMIT as int
    } else if v < -REGISTER_LIMIT {
        -REGISTER_LIMIT as int
    } else {
        v
    }
}

/// The next quadrature register: `yq - epsilon * y`, saturated.
pub open spec fn sine_next_yq(o: SineOscillator) -> int {
    clamp_register(o.yqn_1 - descale(o.epsilon * o.yn_1))
}

/// The next sine register: `y + epsilon * yq'`, over the already
/// updated quadrature register, saturated.
pub open spec fn sine_next_y(o: SineOscillator) -> int {
    clamp_register(o.yn_1 + descale(o.epsilon * sine_next_yq(o)))
}

impl SineOscillator {
    /// Creates an oscillator seeded one and two samples before the
    /// zero crossing, so the sine output starts at phase zero. Rejects
    /// a zero frequency, a frequency at or above the Nyquist limit,
    /// and a sample rate outside the supported range.
    pub fn new(frequency_millihz: u64, sample_rate: u64) -> (r: Result<SineOscillator, SynthError>)
        ensures
            osc_params_valid(frequency_millihz as int, sample_rate as int) ==> match r {
                Ok(o) => {
                    &&& o.frequency_millihz == frequency_millihz
                    &&& o.sample_rate == sample_rate
                    &&& o.epsilon as int == epsilon_spec(
                        frequency_millihz as int,
                        sample_rate * 1000,
                    )
                    &&& o.yn_1 as int == -sin_cycle_spec(
                        frequency_millihz as int,
                        sample_rate * 1000,
                    )
                    &&& o.yqn_1 as int == -sin_cycle_spec(
                        2 * frequency_millihz as int,
                        sample_rate * 1000,
                    )
                },
                Err(_) => false,
            },
            !osc_params_valid(frequency_millihz as int, sample_rate as int) ==> r == Err::<
                SineOscillator,
                SynthError,
            >(SynthError::InvalidParameter),
    {
        if sample_rate >= 1 && sample_rate <= crate::MAX_SAMPLE_RATE && frequency_millihz >= 1
            && frequency_millihz < sample_rate * 1000 && 2 * frequency_millihz < sample_rate
            * 1000 {
            let den: u64 = sample_rate * 1000;
            let eps: i64 = 2 * sin_half_cycle(frequency_millihz, den);
            let y_seed: i64 = -sin_cycle(frequency_millihz, den);
            let yq_seed: i64 = -sin_cycle(2 * frequency_millihz, den);
            Ok(
                SineOscillator {
                    epsilon: eps,
                    yn_1: y_seed,
                    yqn_1: yq_seed,
                    frequency_millihz,
                    sample_rate,
                },
            )
        } else {
            Err(SynthError::InvalidParameter)
        }
    }

    /// Changes the frequency, recomputing the recurrence coefficient;
    /// the registers carry over, so the waveform stays continuous. A
    /// zero frequency or one at or above the Nyquist limit is rejected
    /// and the prior state kept.
    pub fn set_frequency(&mut self, frequency_millihz: u64) -> (r: Result<(), SynthError>)
        ensures
            osc_params_valid(frequency_millihz as int, old(self).sample_rate as int) ==> {
                &&& r == Ok::<(), SynthError>(())
                &&& final(self).frequency_millihz == frequency_millihz
                &&& final(self).sample_rate == old(self).sample_rate
                &&& final(self).epsilon as int == epsilon_spec(
                    frequency_millihz as int,
                    old(self).sample_rate * 1000,
                )
                &&& final(self).yn_1 == old(self).yn_1
                &&& final(self).yqn_1 == old(self).yqn_1
            },
            !osc_params_valid(frequency_millihz as int, old(self).sample_rate as int) ==> r
                == Err::<(), SynthError>(SynthError::InvalidParameter) && *final(self) == *old(
                self,
            ),
    {
        let sample_rate = self.sample_rate;
        if sample_rate >= 1 && sample_rate <= crate::MAX_SAMPLE_RATE && frequency_millihz >= 1
            && frequency_millihz < sample_rate * 1000 && 2 * frequency_millihz < sample_rate
            * 1000 {
            self.cook_frequency(frequency_millihz, sample_rate);
            Ok(())
        } else {
            Err(SynthError::InvalidParameter)
        }
    }

    /// Changes the sample rate, recomputing the recurrence coefficient
    /// for the frequency already set; the registers carry over. A rate
    /// that leaves the current frequency at or above the Nyquist limit
    /// is rejected and the prior state kept.
    pub fn set_sample_rate(&mut self, sample_rate: u64) -> (r: Result<(), SynthError>)
        ensures
            osc_params_valid(old(self).frequency_millihz as int, sample_rate as int) ==> {
                &&& r == Ok::<(), SynthError>(())
                &&& final(self).frequency_millihz == old(self).frequency_millihz
                &&& final(self).sample_rate == sample_rate
                &&& final(self).epsilon as int == epsilon_spec(
                    old(self).frequency_millihz as int,
                    sample_rate * 1000,
                )
                &&& final(self).yn_1 == old(self).yn_1
                &&& final(self).yqn_1 == old(self).yqn_1
            },
            !osc_params_valid(old(self).frequency_millihz as int, sample_rate as int) ==> r
                == Err::<(), SynthError>(SynthError::InvalidParameter) && *final(self) == *old(
                self,
            ),
    {
        let frequency_millihz = self.frequency_millihz;
        if sample_rate >= 1 && sample_rate <= crate::MAX_SAMPLE_RATE && frequency_millihz >= 1
            && frequency_millihz < sample_rate * 1000 && 2 * frequency_millihz < sample_rate
            * 1000 {
            self.cook_frequency(frequency_millihz, sample_rate);
            Ok(())
        } else {
            Err(SynthError::InvalidParameter)
        }
    }

    pub fn get_frequency(&self) -> (r: u64)
        ensures
            r == self.frequency_millihz,
    {
        self.frequency_millihz
    }

    pub fn get_sample_rate(&self) -> (r: u64)
        ensures
            r == self.sample_rate,
    {
        self.sample_rate
    }

    /// Stores the frequency and sample rate and derives the recurrence
    /// coefficient from them; the registers carry over.
    fn cook_frequency(&mut self, frequency_millihz: u64, sample_rate: u64)
        requires
            osc_params_valid(frequency_millihz as int, sample_rate as int),
        ensures
            final(self).frequency_millihz == frequency_millihz,
            final(self).sample_rate == sample_rate,
            final(self).epsilon as int == epsilon_spec(
                frequency_millihz as int,
                sample_rate * 1000,
            ),
            final(self).yn_1 == old(self).yn_1,
            final(self).yqn_1 == old(self).yqn_1,
    {
        let den: u64 = sample_rate * 1000;
        self.sample_rate = sample_rate;
        self.frequency_millihz = frequency_millihz;
        self.epsilon = 2 * sin_half_cycle(frequency_millihz, den);
    }

    /// Advances the recurrence by one sample and returns the pair
    /// `(sine, quadrature)`.
    pub fn step(&mut self) -> (r: (i64, i64))
        ensures
            final(self).epsilon == old(self).epsilon,
            final(self).frequency_millihz == old(self).frequency_millihz,
            final(self).sample_rate == old(self).sample_rate,
            final(self).yqn_1 as int == sine_next_yq(*old(self)),
            final(self).yn_1 as int == sine_next_y(*old(self)),
            r.0 == final(self).yn_1,
            r.1 == final(self).yqn_1,
    {
        proof {
            lemma_i64_product_fits(self.epsilon as int, self.yn_1 as int);
        }
        let p1: i128 = self.epsilon as i128 * self.yn_1 as i128;
        let d1: i128 = descale_wide(p1);
        let yq: i64 = clamp_register_wide(self.yqn_1 as i128 - d1);
        proof {
            lemma_i64_product_fits(self.epsilon as int, yq as int);
        }
        let p2: i128 = self.epsilon as i128 * yq as i128;
        let d2: i128 = descale_wide(p2);
        let y: i64 = clamp_register_wide(self.yn_1 as i128 + d2);
        self.yqn_1 = yq;
        self.yn_1 = y;
        (y, yq)
    }
}

/// `descale` on a 128-bit value, with its magnitude never growing.
fn descale_wide(v: i128) -> (r: i128)
    requires
        -85070591730234615865843651857942052864 <= v <= 85070591730234615865843651857942052864,
    ensures
        r as int == descale(v as int),
        v >= 0 ==> 0 <= r <= v,
        v < 0 ==> v <= r <= 0,
{
    if v >= 0 {
        ((v as u128) / (SAMPLE_SCALE as u128)) as i128
    } else {
        -(((-v) as u128 / (SAMPLE_SCALE as u128)) as i128)
    }
}

/// Saturate a wide intermediate into the register range.
fn clamp_register_wide(v: i128) -> (r: i64)
    ensures
        r as int == clamp_register(v as int),
{
    if v > REGISTER_LIMIT as i128 {
        REGISTER_LIMIT
    } else if v < -REGISTER_LIMIT as i128 {
        -REGISTER_LIMIT
    } else {
        v as i64
    }
}

/// The product of two 64-bit values stays inside the 128-bit range.
proof fn lemma_i64_product_fits(a: int, b: int)
    requires
        -9223372036854775808 <= a <= 9223372036854775807,
        -9223372036854775808 <= b <= 9223372036854775807,
    ensures
        -85070591730234615865843651857942052864 <= a * b
            <= 85070591730234615865843651857942052864,
{
    assert(-85070591730234615865843651857942052864 <= a * b
        <= 85070591730234615865843651857942052864) by (nonlinear_arith)
        requires
            -9223372036854775808 <= a <= 9223372036854775807,
            -9223372036854775808 <= b <= 9223372036854775807,
    ;
}

} // verus!
