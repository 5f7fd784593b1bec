//! Wavetable synthesis: a precomputed one-cycle sample table and an
//! oscillator that replays it at an arbitrary frequency.
//!
//! A [`WaveTable`] holds one full period of a waveform as Q30 samples.
//! It is built once, then shared by plain reference across every
//! oscillator that uses the shape; nothing mutates it afterwards. The
//! [`WaveTableOscillator`] advances the same exact rational phase
//! accumulator as the sawtooth oscillator and reads the table at the
//! nearest entry, wrapping cyclically.

use vstd::prelude::*;
use crate::{SAMPLE_SCALE, MAX_SAMPLE_RATE, osc_params_valid};
use crate::errors::SynthError;
use crate::trig::{sin_cycle, sin_cycle_spec};
use crate::saw::advanced_phase;

verus! {

/// Largest table length `build` accepts.
pub const MAX_TABLE_LEN: usize = 1048576;

/// The waveform shapes a table can be built from.
#[derive(Debug, Clone, Copy, PartialEq, Eq, Structural)]
pub enum WaveShape {
    Sine,
    Saw,
    Square,
    Triangle,
}

/// The Q30 sample of one period of `shape` at position `i` of `n`:
/// sine through the fixed-point full-cycle sine, the others as exact
/// piecewise-linear ramps.
pub open spec fn shape_sample(shape: WaveShape, i: int, n: int) -> int {
    match shape {
        WaveShape::Sine => sin_cycle_spec(i, n),
        WaveShape::Saw => (2 * i * SAMPLE_SCALE) / n - SAMPLE_SCALE,
        WaveShape::Square => if 2 * i < n {
            SAMPLE_SCALE as int
        } else {
            -SAMPLE_SCALE as int
        },
        WaveShape::Triangle => if 4 * i <= n {
            (4 * i * SAMPLE_SCALE) / n
        } else if 4 * i <= 3 * n {
            2 * SAMPLE_SCALE - (4 * i * SAMPLE_SCALE) / n
        } else {
            (4 * i * SAMPLE_SCALE) / n - 4 * SAMPLE_SCALE
        },
    }
}

/// One full cycle of a waveform, sampled at table resolution.
/// Immutable after construction and shared by reference.
#[derive(Debug)]
pub struct WaveTable {
    /// The Q30 samples of one period, in order.
    pub samples: Vec<i64>,
}

impl WaveTable {
    /// Internal consistency: a nonempty table of full-scale-bounded
    /// samples.
    pub open spec fn wf(self) -> bool {
        &&& 1 <= self.samples@.len() <= MAX_TABLE_LEN
        &&& forall|i: int|
            0 <= i < self.samples@.len() ==> -SAMPLE_SCALE <= #[trigger] self.samples@[i]
                <= SAMPLE_SCALE
    }

    /// Builds an immutable table of `length` samples covering one
    /// period of `shape`. Rejects a zero length and one beyond
    /// `MAX_TABLE_LEN`.
    pub fn build(shape: WaveShape, length: usize) -> (r: Result<WaveTable, SynthError>)
        ensures
            1 <= length <= MAX_TABLE_LEN ==> match r {
                Ok(t) => {
                    &&& t.wf()
                    &&& t.samples@.len() == length
                    &&& forall|i: int|
                        0 <= i < length ==> #[trigger] t.samples@[i] as int == shape_sample(
                            shape,
                            i,
                            length as int,
                        )
                },
                Err(_) => false,
            },
            !(1 <= length <= MAX_TABLE_LEN) ==> r == Err::<WaveTable, SynthError>(
                SynthError::InvalidParameter,
            ),
    {
        if length < 1 || length > MAX_TABLE_LEN {
            return Err(SynthError::InvalidParameter);
        }
        let mut samples: Vec<i64> = Vec::new();
        let mut i: usize = 0;
        while i < length
            invariant
                i <= length,
                1 <= length <= MAX_TABLE_LEN,
                samples@.len() == i,
                forall|k: int|
                    0 <= k < i ==> #[trigger] samples@[k] as int == shape_sample(
                        shape,
                        k,
                        length as int,
                    ),
                forall|k: int|
                    0 <= k < i ==> -SAMPLE_SCALE <= #[trigger] samples@[k] <= SAMPLE_SCALE,
            decreases length - i,
        {
            let v = table_value(shape, i, length);
            samples.push(v);
            i = i + 1;
        }
        Ok(WaveTable { samples })
    }

    /// The number of samples in one period.
    pub fn len(&self) -> (r: usize)
        ensures
            r == self.samples@.len(),
    {
        self.samples.len()
    }

    /// The value at an integer index modulo the length: a cyclic wrap,
    /// never an out-of-range error.
    pub fn sample_at(&self, index: usize) -> (r: i64)
        requires
            self.wf(),
        ensures
            r == self.samples@[(index as int) % (self.samples@.len() as int)],
            -SAMPLE_SCALE <= r <= SAMPLE_SCALE,
    {
        let n = self.samples.len();
        self.samples[index % n]
    }
}

/// The table entry a phase maps to: the nearest index for the phase
/// fraction `phase/den` of the cycle, wrapped cyclically.
pub open spec fn table_index(phase: int, den: int, n: int) -> int {
    ((phase * n + den / 2) / den) % n
}

/// An oscillator that replays one shared wavetable cycle, advancing an
/// exact rational phase accumulator each step.
#[derive(Debug, Clone, Copy)]
pub struct WaveTableOscillator<'a> {
    /// The shared, read-only table holding one period of the waveform.
    pub table: &'a WaveTable,
    /// Frequency generated by this oscillator, in millihertz; zero
    /// until the first note-on.
    pub frequency_millihz: u64,
    /// Sample rate of the audio stream, in hertz.
    pub sample_rate: u64,
    /// Phase numerator over the denominator `sample_rate * 1000`.
    pub phase_num: u64,
    /// Whether a note is sounding; an idle oscillator holds its phase
    /// and outputs silence.
    pub playing: bool,
}

/// The oscillator after one step: the phase advanced by one sample
/// while playing, untouched while idle.
pub open spec fn wt_stepped<'a>(o: WaveTableOscillator<'a>) -> WaveTableOscillator<'a> {
    if o.playing {
        WaveTableOscillator {
            phase_num: advanced_phase(
                o.phase_num as int,
                o.frequency_millihz as int,
                o.sample_rate * 1000,
            ) as u64,
            ..o
        }
    } else {
        o
    }
}

/// The output of one step: the table entry nearest the advanced phase
/// while playing, silence while idle.
pub open spec fn wt_step_output<'a>(o: WaveTableOscillator<'a>) -> int {
    if o.playing {
        o.table.samples@[table_index(
            advanced_phase(o.phase_num as int, o.frequency_millihz as int, o.sample_rate * 1000),
            o.sample_rate * 1000,
            o.table.samples@.len() as int,
        )] as int
    } else {
        0
    }
}

/// Law: an oscillator playing a table built from the sine shape
/// outputs exactly the fixed-point sine of the table position nearest
/// its phase — wavetable playback of the sine shape is sine synthesis
/// up to table resolution. (That the fixed-point sine tracks the real
/// sine within the design tolerance is a numeric fact checked by the
/// test suite, since real-valued arithmetic has no place here.)
pub proof fn lemma_sine_playback_reads_the_sine<'a>(o: WaveTableOscillator<'a>)
    requires
        o.playing,
        o.wf(),
        forall|i: int|
            0 <= i < o.table.samples@.len() ==> #[trigger] o.table.samples@[i] as int
                == shape_sample(WaveShape::Sine, i, o.table.samples@.len() as int),
    ensures
        wt_step_output(o) == sin_cycle_spec(
            table_index(
                advanced_phase(
                    o.phase_num as int,
                    o.frequency_millihz as int,
                    o.sample_rate * 1000,
                ),
                o.sample_rate * 1000,
                o.table.samples@.len() as int,
            ),
            o.table.samples@.len() as int,
        ),
{
    let n = o.table.samples@.len() as int;
    let idx = table_index(
        advanced_phase(o.phase_num as int, o.frequency_millihz as int, o.sample_rate * 1000),
        o.sample_rate * 1000,
        n,
    );
    assert(0 <= idx < n) by {
        vstd::arithmetic::div_mod::lemma_mod_bound(
            (advanced_phase(o.phase_num as int, o.frequency_millihz as int, o.sample_rate * 1000)
                * n + (o.sample_rate * 1000) / 2) / (o.sample_rate * 1000),
            n,
        );
    }
}

impl<'a> WaveTableOscillator<'a> {
    /// Internal consistency: a well-formed table, valid rates, the
    /// phase inside the cycle, and — whenever the oscillator sounds — a
    /// valid frequency.
    pub open spec fn wf(self) -> bool {
        &&& self.table.wf()
        &&& 1 <= self.sample_rate <= MAX_SAMPLE_RATE
        &&& self.phase_num < self.sample_rate * 1000
        &&& self.playing ==> osc_params_valid(
            self.frequency_millihz as int,
            self.sample_rate as int,
        )
    }

    /// Creates an idle oscillator at phase zero over the given table.
    /// The frequency is set by the first note-on. Rejects a sample
    /// rate outside the supported range.
    pub fn new(sample_rate: u64, table: &'a WaveTable) -> (r: Result<
        WaveTableOscillator<'a>,
        SynthError,
    >)
        requires
            table.wf(),
        ensures
            1 <= sample_rate <= MAX_SAMPLE_RATE ==> r == Ok::<
                WaveTableOscillator<'a>,
                SynthError,
            >(
                WaveTableOscillator {
                    table,
                    frequency_millihz: 0,
                    sample_rate,
                    phase_num: 0,
                    playing: false,
                },
            ),
            !(1 <= sample_rate <= MAX_SAMPLE_RATE) ==> r == Err::<
                WaveTableOscillator<'a>,
                SynthError,
            >(SynthError::InvalidParameter),
            r matches Ok(o) ==> o.wf(),
    {
        if sample_rate >= 1 && sample_rate <= MAX_SAMPLE_RATE {
            Ok(
                WaveTableOscillator {
                    table,
                    frequency_millihz: 0,
                    sample_rate,
                    phase_num: 0,
                    playing: false,
                },
            )
        } else {
            Err(SynthError::InvalidParameter)
        }
    }

    /// Advances the oscillator by one sample and returns the output:
    /// the table entry nearest the new phase while playing, silence
    /// (and an unchanged phase) while idle.
    pub fn step(&mut self) -> (r: i64)
        requires
            old(self).wf(),
        ensures
            final(self).wf(),
            *final(self) == wt_stepped(*old(self)),
            r as int == wt_step_output(*old(self)),
            -SAMPLE_SCALE <= r <= SAMPLE_SCALE,
    {
        if self.playing {
            let den: u64 = self.sample_rate * 1000;
            self.phase_num = (self.phase_num + self.frequency_millihz) % den;
            let n: usize = self.table.len();
            proof {
                lemma_mul_le(self.phase_num as int, 999999999, n as int, 1048576);
            }
            let num: u128 = self.phase_num as u128 * n as u128 + (den / 2) as u128;
            proof {
                assert(num < den * (n + 1)) by (nonlinear_arith)
                    requires
                        num == self.phase_num * n + den / 2,
                        self.phase_num < den,
                        den >= 1000,
                        n >= 1,
                        den / 2 < den,
                ;
                assert(num / (den as u128) <= n) by (nonlinear_arith)
                    requires
                        den >= 1000,
                        0 <= num < den * (n + 1),
                ;
            }
            let q: usize = (num / den as u128) as usize;
            self.table.sample_at(q)
        } else {
            0
        }
    }

    /// Changes the frequency; the phase and playing state carry over.
    /// A zero frequency or one at or above the Nyquist limit is
    /// rejected and the prior frequency kept.
    pub fn set_frequency(&mut self, frequency_millihz: u64) -> (r: Result<(), SynthError>)
        requires
            old(self).wf(),
        ensures
            final(self).wf(),
            osc_params_valid(frequency_millihz as int, old(self).sample_rate as int) ==> r == Ok::<
                (),
                SynthError,
            >(()) && *final(self) == (WaveTableOscillator {
                frequency_millihz,
                ..*old(self)
            }),
            !osc_params_valid(frequency_millihz as int, old(self).sample_rate as int) ==> r
                == Err::<(), SynthError>(SynthError::InvalidParameter) && *final(self) == *old(
                self,
            ),
    {
        if frequency_millihz >= 1 && frequency_millihz < self.sample_rate * 1000 && 2
            * frequency_millihz < self.sample_rate * 1000 {
            self.frequency_millihz = frequency_millihz;
            Ok(())
        } else {
            Err(SynthError::InvalidParameter)
        }
    }

    pub fn get_frequency(&self) -> (r: u64)
        ensures
            r == self.frequency_millihz,
    {
        self.frequency_millihz
    }

    pub fn get_sample_rate(&self) -> (r: u64)
        ensures
            r == self.sample_rate,
    {
        self.sample_rate
    }

    pub fn is_playing(&self) -> (r: bool)
        ensures
            r == self.playing,
    {
        self.playing
    }

    /// Starts sounding the given frequency from phase zero. An invalid
    /// frequency is rejected and the oscillator left as it was.
    pub fn note_on(&mut self, frequency_millihz: u64) -> (r: Result<(), SynthError>)
        requires
            old(self).wf(),
        ensures
            final(self).wf(),
            osc_params_valid(frequency_millihz as int, old(self).sample_rate as int) ==> r == Ok::<
                (),
                SynthError,
            >(()) && *final(self) == (WaveTableOscillator {
                frequency_millihz,
                phase_num: 0,
                playing: true,
                ..*old(self)
            }),
            !osc_params_valid(frequency_millihz as int, old(self).sample_rate as int) ==> r
                == Err::<(), SynthError>(SynthError::InvalidParameter) && *final(self) == *old(
                self,
            ),
    {
        if frequency_millihz >= 1 && frequency_millihz < self.sample_rate * 1000 && 2
            * frequency_millihz < self.sample_rate * 1000 {
            self.frequency_millihz = frequency_millihz;
            self.phase_num = 0;
            self.playing = true;
            Ok(())
        } else {
            Err(SynthError::InvalidParameter)
        }
    }

    /// Stops sounding; the phase and frequency carry over.
    pub fn note_off(&mut self)
        ensures
            *final(self) == (WaveTableOscillator { playing: false, ..*old(self) }),
    {
        self.playing = false;
    }
}

/// One table entry for `shape` at position `i` of `n`, bounded by one
/// full scale.
fn table_value(shape: WaveShape, i: usize, n: usize) -> (r: i64)
    requires
        1 <= n <= MAX_TABLE_LEN,
        i < n,
    ensures
        r as int == shape_sample(shape, i as int, n as int),
        -SAMPLE_SCALE <= r <= SAMPLE_SCALE,
{
    match shape {
        WaveShape::Sine => sin_cycle(i as u64, n as u64),
        WaveShape::Saw => {
            let num: u64 = 2 * (i as u64);
            proof {
                lemma_mul_le(num as int, 2097152, SAMPLE_SCALE as int, SAMPLE_SCALE as int);
                lemma_ramp_div(num as int, n as int, 2);
            }
            let scaled: u128 = num as u128 * SAMPLE_SCALE as u128;
            let q: u64 = (scaled / n as u128) as u64;
            q as i64 - SAMPLE_SCALE
        },
        WaveShape::Square => {
            if 2 * (i as u64) < n as u64 {
                SAMPLE_SCALE
            } else {
                -SAMPLE_SCALE
            }
        },
        WaveShape::Triangle => {
            let num: u64 = 4 * (i as u64);
            proof {
                lemma_mul_le(num as int, 4194304, SAMPLE_SCALE as int, SAMPLE_SCALE as int);
                lemma_ramp_div(num as int, n as int, 4);
            }
            let scaled: u128 = num as u128 * SAMPLE_SCALE as u128;
            let q: u64 = (scaled / n as u128) as u64;
            if num <= n as u64 {
                proof {
                    lemma_ramp_div(num as int, n as int, 1);
                }
                q as i64
            } else if num <= 3 * (n as u64) {
                proof {
                    lemma_ramp_div(num as int, n as int, 3);
                    lemma_ramp_div_lower(num as int, n as int);
                }
                2 * SAMPLE_SCALE - q as i64
            } else {
                proof {
                    lemma_ramp_div_lower(num as int, n as int);
                }
                q as i64 - 4 * SAMPLE_SCALE
            }
        },
    }
}

/// A product of nonnegative values stays within the product of their
/// bounds.
proof fn lemma_mul_le(a: int, am: int, b: int, bm: int)
    requires
        0 <= a <= am,
        0 <= b <= bm,
    ensures
        0 <= a * b <= am * bm,
{
    assert(0 <= a * b <= am * bm) by (nonlinear_arith)
        requires
            0 <= a <= am,
            0 <= b <= bm,
    ;
}

/// The ramp quotient `(num * SAMPLE_SCALE) / n` stays within `k` full
/// scales when `num <= k * n`.
proof fn lemma_ramp_div(num: int, n: int, k: int)
    requires
        n >= 1,
        k >= 1,
        0 <= num <= k * n,
    ensures
        0 <= (num * SAMPLE_SCALE) / n <= k * SAMPLE_SCALE,
{
    assert(0 <= (num * SAMPLE_SCALE) / n <= k * SAMPLE_SCALE) by (nonlinear_arith)
        requires
            n >= 1,
            k >= 1,
            0 <= num <= k * n,
    ;
}

/// The ramp quotient `(num * SAMPLE_SCALE) / n` reaches `j` full scales
/// once `num >= j * n`; stated for the thresholds the triangle uses.
proof fn lemma_ramp_div_lower(num: int, n: int)
    requires
        n >= 1,
        0 <= num,
    ensures
        num >= n ==> (num * SAMPLE_SCALE) / n >= SAMPLE_SCALE,
        num >= 3 * n ==> (num * SAMPLE_SCALE) / n >= 3 * SAMPLE_SCALE,
{
    assert((num >= n ==> (num * SAMPLE_SCALE) / n >= SAMPLE_SCALE) && (num >= 3 * n ==> (num
        * SAMPLE_SCALE) / n >= 3 * SAMPLE_SCALE)) by (nonlinear_arith)
        requires
            n >= 1,
            0 <= num,
    ;
}

} // verus!
