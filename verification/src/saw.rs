//! A sawtooth oscillator.
//!
//! The phase is a fraction of one cycle held as an exact rational: the
//! numerator `phase_num` over the fixed denominator
//! `sample_rate * 1000`. Each step while playing advances the numerator
//! by the frequency in millihertz, modulo the denominator — exactly the
//! textbook accumulator `phase += frequency / sample_rate (mod 1)` with
//! no rounding drift at all. The output is the Q30 rendering of
//! `2 * phase - 1`.

use vstd::prelude::*;
use crate::{SAMPLE_SCALE, osc_params_valid};
use crate::errors::SynthError;

verus! {

#[derive(Debug, Clone, Copy, PartialEq, Eq, Structural)]
pub struct SawOscillator {
    /// Frequency generated by this oscillator, in millihertz.
    pub frequency_millihz: u64,
    /// Sample rate of the audio stream, in hertz.
    pub sample_rate: u64,
    /// Phase numerator: the position inside the cycle is
    /// `phase_num / (sample_rate * 1000)`.
    pub phase_num: u64,
    /// Whether a note is sounding; an idle oscillator holds its phase
    /// and outputs silence.
    pub playing: bool,
}

/// The phase numerator after one step: advance by the frequency, wrap
/// at one full cycle.
pub open spec fn advanced_phase(phase: int, freq: int, den: int) -> int {
    (phase + freq) % den
}

/// The phase numerator after `n` steps.
pub open spec fn phase_after(start: int, freq: int, den: int, n: nat) -> int
    decreases n,
{
    if n == 0 {
        start % den
    } else {
        advanced_phase(phase_after(start, freq, den, (n - 1) as nat), freq, den)
    }
}

/// The sawtooth sample at a phase `phase/den` of the cycle:
/// `2 * phase - 1` in Q30, rounded down.
pub open spec fn saw_sample(phase: int, den: int) -> int {
    (2 * phase * SAMPLE_SCALE) / den - SAMPLE_SCALE
}

impl SawOscillator {
    /// Internal consistency: valid rates and a phase inside the cycle.
    pub open spec fn wf(self) -> bool {
        &&& osc_params_valid(self.frequency_millihz as int, self.sample_rate as int)
        &&& self.phase_num < self.sample_rate * 1000
    }

    /// Creates an idle sawtooth oscillator at phase zero. Rejects a
    /// zero frequency, a frequency at or above the Nyquist limit, and a
    /// sample rate outside the supported range.
    pub fn new(frequency_millihz: u64, sample_rate: u64) -> (r: Result<SawOscillator, SynthError>)
        ensures
            osc_params_valid(frequency_millihz as int, sample_rate as int) ==> r == Ok::<
                SawOscillator,
                SynthError,
            >(
                SawOscillator {
                    frequency_millihz,
                    sample_rate,
                    phase_num: 0,
                    playing: false,
                },
            ),
            !osc_params_valid(frequency_millihz as int, sample_rate as int) ==> r == Err::<
                SawOscillator,
                SynthError,
            >(SynthError::InvalidParameter),
            r matches Ok(o) ==> o.wf(),
    {
        if sample_rate >= 1 && sample_rate <= crate::MAX_SAMPLE_RATE && frequency_millihz >= 1
            && frequency_millihz < sample_rate * 1000 && 2 * frequency_millihz < sample_rate
            * 1000 {
            Ok(SawOscillator { frequency_millihz, sample_rate, phase_num: 0, playing: false })
        } else {
            Err(SynthError::InvalidParameter)
        }
    }

    /// Advances the oscillator by one sample and returns the output:
    /// the sawtooth value at the new phase while playing, silence (and
    /// an unchanged phase) while idle.
    pub fn step(&mut self) -> (r: i64)
        requires
            old(self).wf(),
        ensures
            final(self).wf(),
            final(self).frequency_millihz == old(self).frequency_millihz,
            final(self).sample_rate == old(self).sample_rate,
            final(self).playing == old(self).playing,
            old(self).playing ==> final(self).phase_num as int == advanced_phase(
                old(self).phase_num as int,
                old(self).frequency_millihz as int,
                old(self).sample_rate * 1000,
            ),
            old(self).playing ==> r as int == saw_sample(
                final(self).phase_num as int,
                old(self).sample_rate * 1000,
            ),
            !old(self).playing ==> *final(self) == *old(self) && r == 0,
            -SAMPLE_SCALE <= r < SAMPLE_SCALE,
    {
        if self.playing {
            let den: u64 = self.sample_rate * 1000;
            self.phase_num = (self.phase_num + self.frequency_millihz) % den;
            let num: u64 = 2 * self.phase_num;
            let scaled: u128 = num as u128 * SAMPLE_SCALE as u128;
            proof {
                assert(scaled < 2 * SAMPLE_SCALE * den) by (nonlinear_arith)
                    requires
                        scaled == num * SAMPLE_SCALE,
                        num < 2 * den,
                        den >= 1,
                        SAMPLE_SCALE >= 1,
                ;
                assert(scaled / (den as u128) < 2 * SAMPLE_SCALE) by (nonlinear_arith)
                    requires
                        den >= 1,
                        0 <= scaled < 2 * SAMPLE_SCALE * den,
                ;
            }
            let q: u64 = (scaled / den as u128) as u64;
            q as i64 - SAMPLE_SCALE
        } else {
            0
        }
    }

    /// Changes the frequency; the phase and playing state carry over.
    /// A zero frequency or one at or above the Nyquist limit is
    /// rejected and the prior frequency kept.
    pub fn set_frequency(&mut self, frequency_millihz: u64) -> (r: Result<(), SynthError>)
        requires
            old(self).wf(),
        ensures
            final(self).wf(),
            osc_params_valid(frequency_millihz as int, old(self).sample_rate as int) ==> r == Ok::<
                (),
                SynthError,
            >(()) && *final(self) == (SawOscillator {
                frequency_millihz,
                ..*old(self)
            }),
            !osc_params_valid(frequency_millihz as int, old(self).sample_rate as int) ==> r
                == Err::<(), SynthError>(SynthError::InvalidParameter) && *final(self) == *old(
                self,
            ),
    {
        if frequency_millihz >= 1 && frequency_millihz < self.sample_rate * 1000 && 2
            * frequency_millihz < self.sample_rate * 1000 {
            self.frequency_millihz = frequency_millihz;
            Ok(())
        } else {
            Err(SynthError::InvalidParameter)
        }
    }

    pub fn get_frequency(&self) -> (r: u64)
        ensures
            r == self.frequency_millihz,
    {
        self.frequency_millihz
    }

    pub fn get_sample_rate(&self) -> (r: u64)
        ensures
            r == self.sample_rate,
    {
        self.sample_rate
    }

    pub fn is_playing(&self) -> (r: bool)
        ensures
            r == self.playing,
    {
        self.playing
    }

    /// Starts sounding the given frequency from phase zero. An invalid
    /// frequency is rejected and the oscillator left as it was.
    pub fn note_on(&mut self, frequency_millihz: u64) -> (r: Result<(), SynthError>)
        requires
            old(self).wf(),
        ensures
            final(self).wf(),
            osc_params_valid(frequency_millihz as int, old(self).sample_rate as int) ==> r == Ok::<
                (),
                SynthError,
            >(()) && *final(self) == (SawOscillator {
                frequency_millihz,
                phase_num: 0,
                playing: true,
                ..*old(self)
            }),
            !osc_params_valid(frequency_millihz as int, old(self).sample_rate as int) ==> r
                == Err::<(), SynthError>(SynthError::InvalidParameter) && *final(self) == *old(
                self,
            ),
    {
        if frequency_millihz >= 1 && frequency_millihz < self.sample_rate * 1000 && 2
            * frequency_millihz < self.sample_rate * 1000 {
            self.frequency_millihz = frequency_millihz;
            self.phase_num = 0;
            self.playing = true;
            Ok(())
        } else {
            Err(SynthError::InvalidParameter)
        }
    }

    /// Stops sounding; the phase and frequency carry over.
    pub fn note_off(&mut self)
        ensures
            *final(self) == (SawOscillator { playing: false, ..*old(self) }),
    {
        self.playing = false;
    }
}

/// After `n` steps the phase numerator is the start plus `n` times the
/// frequency, wrapped at one cycle.
pub proof fn lemma_phase_after_closed(start: int, freq: int, den: int, n: nat)
    requires
        den >= 1,
        0 <= start,
        0 <= freq,
    ensures
        phase_after(start, freq, den, n) == (start + n * freq) % den,
    decreases n,
{
    if n == 0 {
        assert(n * freq == 0) by (nonlinear_arith)
            requires
                n == 0,
        ;
    } else {
        lemma_phase_after_closed(start, freq, den, (n - 1) as nat);
        let prev = start + (n - 1) * freq;
        vstd::arithmetic::div_mod::lemma_add_mod_noop_right(freq, prev, den);
        assert(prev + freq == start + n * freq) by (nonlinear_arith)
            requires
                prev == start + (n - 1) * freq,
                n >= 1,
        ;
    }
}

/// Law: for a frequency that divides the sample rate evenly, the
/// sawtooth phase accumulator is periodic with period
/// `sample_rate / frequency` samples — exactly, since the phase is an
/// exact rational.
pub proof fn lemma_saw_phase_periodic(start: int, freq: int, den: int, period: nat, n: nat)
    requires
        den >= 1,
        freq >= 0,
        0 <= start,
        period * freq == den,
    ensures
        phase_after(start, freq, den, n + period) == phase_after(start, freq, den, n),
{
    lemma_phase_after_closed(start, freq, den, n);
    lemma_phase_after_closed(start, freq, den, n + period);
    assert((n + period) * freq == n * freq + den) by (nonlinear_arith)
        requires
            period * freq == den,
    ;
    vstd::arithmetic::div_mod::lemma_mod_add_multiples_vanish(start + n * freq, den);
}

} // verus!
