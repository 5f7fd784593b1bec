//! A fixed-capacity polyphonic voice pool and the per-frame mix.
//!
//! The pool owns a fixed number of wavetable oscillators, all sharing
//! one table and one sample rate. A note-on takes the first idle slot;
//! when every slot sounds, the event is dropped silently — the
//! real-time path never propagates recoverable errors. A note-off
//! releases the first sounding slot whose tracked frequency matches
//! exactly (frequencies are integers in millihertz, so the match is an
//! exact integer comparison, not a float tolerance).
//!
//! [`VoicePool::mix`] is the per-frame render step: every voice is
//! stepped exactly once, in slot order, and the outputs are summed and
//! divided by the voice count.

use vstd::prelude::*;
use crate::{SAMPLE_SCALE, MAX_SAMPLE_RATE, osc_params_valid};
use crate::errors::SynthError;
use crate::wavetable::{WaveTable, WaveTableOscillator, wt_stepped, wt_step_output};

verus! {

/// Largest voice count a pool accepts.
pub const MAX_POLYPHONY: usize = 65536;

/// Fixed-capacity collection of oscillators; allocates a free voice to
/// an incoming note-on, releases it on a matching note-off.
#[derive(Debug)]
pub struct VoicePool<'a> {
    /// The voice slots, in fixed scan order.
    pub voices: Vec<WaveTableOscillator<'a>>,
    /// The sample rate every voice runs at, in hertz.
    pub sample_rate: u64,
}

/// Whether some slot is idle.
pub open spec fn has_idle_voice(vs: Seq<WaveTableOscillator>) -> bool {
    exists|i: int| 0 <= i < vs.len() && !(#[trigger] vs[i]).playing
}

/// Whether some slot sounds the given frequency.
pub open spec fn has_matching_voice(vs: Seq<WaveTableOscillator>, frequency_millihz: int) -> bool {
    exists|i: int|
        0 <= i < vs.len() && (#[trigger] vs[i]).playing && vs[i].frequency_millihz
            == frequency_millihz
}

/// The summed step outputs of all slots, in order.
pub open spec fn sum_step_outputs(vs: Seq<WaveTableOscillator>) -> int
    decreases vs.len(),
{
    if vs.len() == 0 {
        0
    } else {
        sum_step_outputs(vs.drop_last()) + wt_step_output(vs.last())
    }
}

/// The mixed sample: the sum normalized by the voice count, truncating
/// toward zero; an empty pool mixes to silence.
pub open spec fn mix_avg(sum: int, count: int) -> int {
    if count <= 0 {
        0
    } else if sum >= 0 {
        sum / count
    } else {
        -((-sum) / count)
    }
}

/// The number of sounding slots.
pub open spec fn count_playing(vs: Seq<WaveTableOscillator>) -> int
    decreases vs.len(),
{
    if vs.len() == 0 {
        0
    } else {
        count_playing(vs.drop_last()) + if vs.last().playing {
            1int
        } else {
            0int
        }
    }
}

impl<'a> VoicePool<'a> {
    /// Internal consistency: a bounded slot count, every voice
    /// well-formed, and one shared sample rate.
    pub open spec fn wf(self) -> bool {
        &&& self.voices@.len() <= MAX_POLYPHONY
        &&& 1 <= self.sample_rate <= MAX_SAMPLE_RATE
        &&& forall|i: int| 0 <= i < self.voices@.len() ==> (#[trigger] self.voices@[i]).wf()
        &&& forall|i: int|
            0 <= i < self.voices@.len() ==> (#[trigger] self.voices@[i]).sample_rate
                == self.sample_rate
    }

    /// Creates a pool of `capacity` idle voices over one shared table.
    /// Rejects a sample rate outside the supported range and a
    /// capacity beyond `MAX_POLYPHONY`.
    pub fn new(capacity: usize, sample_rate: u64, table: &'a WaveTable) -> (r: Result<
        VoicePool<'a>,
        SynthError,
    >)
        requires
            table.wf(),
        ensures
            1 <= sample_rate <= MAX_SAMPLE_RATE && capacity <= MAX_POLYPHONY ==> match r {
                Ok(p) => {
                    &&& p.wf()
                    &&& p.sample_rate == sample_rate
                    &&& p.voices@.len() == capacity
                    &&& forall|i: int|
                        0 <= i < capacity ==> #[trigger] p.voices@[i] == (WaveTableOscillator {
                            table,
                            frequency_millihz: 0u64,
                            sample_rate,
                            phase_num: 0u64,
                            playing: false,
                        })
                },
                Err(_) => false,
            },
            !(1 <= sample_rate <= MAX_SAMPLE_RATE && capacity <= MAX_POLYPHONY) ==> r == Err::<
                VoicePool<'a>,
                SynthError,
            >(SynthError::InvalidParameter),
    {
        if !(sample_rate >= 1 && sample_rate <= MAX_SAMPLE_RATE && capacity <= MAX_POLYPHONY) {
            return Err(SynthError::InvalidParameter);
        }
        let mut voices: Vec<WaveTableOscillator<'a>> = Vec::new();
        let mut i: usize = 0;
        while i < capacity
            invariant
                i <= capacity,
                table.wf(),
                1 <= sample_rate <= MAX_SAMPLE_RATE,
                voices@.len() == i,
                forall|j: int|
                    0 <= j < i ==> #[trigger] voices@[j] == (WaveTableOscillator {
                        table,
                        frequency_millihz: 0u64,
                        sample_rate,
                        phase_num: 0u64,
                        playing: false,
                    }),
            decreases capacity - i,
        {
            voices.push(
                WaveTableOscillator {
                    table,
                    frequency_millihz: 0,
                    sample_rate,
                    phase_num: 0,
                    playing: false,
                },
            );
            i = i + 1;
        }
        Ok(VoicePool { voices, sample_rate })
    }

    /// The number of voice slots.
    pub fn capacity(&self) -> (r: usize)
        ensures
            r == self.voices@.len(),
    {
        self.voices.len()
    }

    /// The number of slots currently sounding.
    pub fn active_count(&self) -> (r: usize)
        ensures
            r as int == count_playing(self.voices@),
    {
        let mut count: usize = 0;
        let mut i: usize = 0;
        while i < self.voices.len()
            invariant
                i <= self.voices@.len(),
                count as int == count_playing(self.voices@.take(i as int)),
                count <= i,
            decreases self.voices@.len() - i,
        {
            proof {
                assert(self.voices@.take(i as int + 1).drop_last() =~= self.voices@.take(i as int));
                assert(self.voices@.take(i as int + 1).last() == self.voices@[i as int]);
            }
            if self.voices[i].is_playing() {
                count = count + 1;
            }
            i = i + 1;
        }
        proof {
            assert(self.voices@.take(self.voices@.len() as int) =~= self.voices@);
        }
        count
    }

    /// Assigns the first idle voice to the given frequency, starting it
    /// at phase zero. With no idle voice left, or with an invalid
    /// frequency, the event is dropped and the pool left unchanged —
    /// silently, by design: the caller is the real-time path.
    pub fn note_on(&mut self, frequency_millihz: u64)
        requires
            old(self).wf(),
        ensures
            final(self).wf(),
            final(self).sample_rate == old(self).sample_rate,
            final(self).voices@.len() == old(self).voices@.len(),
            !osc_params_valid(frequency_millihz as int, old(self).sample_rate as int)
                ==> final(self).voices@ == old(self).voices@,
            osc_params_valid(frequency_millihz as int, old(self).sample_rate as int) && !has_idle_voice(
                old(self).voices@,
            ) ==> final(self).voices@ == old(self).voices@,
            osc_params_valid(frequency_millihz as int, old(self).sample_rate as int)
                && has_idle_voice(old(self).voices@) ==> exists|i: int|
                {
                    &&& 0 <= i < old(self).voices@.len()
                    &&& !(#[trigger] old(self).voices@[i]).playing
                    &&& forall|j: int| 0 <= j < i ==> (#[trigger] old(self).voices@[j]).playing
                    &&& final(self).voices@ == old(self).voices@.update(
                        i,
                        WaveTableOscillator {
                            frequency_millihz,
                            phase_num: 0u64,
                            playing: true,
                            ..old(self).voices@[i]
                        },
                    )
                },
    {
        if !(frequency_millihz >= 1 && frequency_millihz < self.sample_rate * 1000 && 2
            * frequency_millihz < self.sample_rate * 1000) {
            return ;
        }
        let mut i: usize = 0;
        while i < self.voices.len()
            invariant
                old(self).wf(),
                *self == *old(self),
                osc_params_valid(frequency_millihz as int, old(self).sample_rate as int),
                i <= self.voices@.len(),
                forall|j: int| 0 <= j < i ==> (#[trigger] self.voices@[j]).playing,
            decreases self.voices@.len() - i,
        {
            let v = self.voices[i];
            if !v.is_playing() {
                let mut nv = v;
                let res = nv.note_on(frequency_millihz);
                proof {
                    assert(res is Ok);
                }
                self.voices.set(i, nv);
                return ;
            }
            i = i + 1;
        }
        proof {
            assert(!has_idle_voice(self.voices@));
        }
    }

    /// Releases the first sounding voice whose tracked frequency
    /// matches the requested one exactly. With no match the event is
    /// dropped and the pool left unchanged.
    pub fn note_off(&mut self, frequency_millihz: u64)
        requires
            old(self).wf(),
        ensures
            final(self).wf(),
            final(self).sample_rate == old(self).sample_rate,
            final(self).voices@.len() == old(self).voices@.len(),
            !has_matching_voice(old(self).voices@, frequency_millihz as int)
                ==> final(self).voices@ == old(self).voices@,
            has_matching_voice(old(self).voices@, frequency_millihz as int) ==> exists|i: int|
                {
                    &&& 0 <= i < old(self).voices@.len()
                    &&& (#[trigger] old(self).voices@[i]).playing
                    &&& old(self).voices@[i].frequency_millihz == frequency_millihz
                    &&& forall|j: int|
                        0 <= j < i ==> !((#[trigger] old(self).voices@[j]).playing && old(
                            self,
                        ).voices@[j].frequency_millihz == frequency_millihz)
                    &&& final(self).voices@ == old(self).voices@.update(
                        i,
                        WaveTableOscillator { playing: false, ..old(self).voices@[i] },
                    )
                },
    {
        let mut i: usize = 0;
        while i < self.voices.len()
            invariant
                old(self).wf(),
                *self == *old(self),
                i <= self.voices@.len(),
                forall|j: int|
                    0 <= j < i ==> !((#[trigger] self.voices@[j]).playing
                        && self.voices@[j].frequency_millihz == frequency_millihz),
            decreases self.voices@.len() - i,
        {
            let v = self.voices[i];
            if v.is_playing() && v.get_frequency() == frequency_millihz {
                let mut nv = v;
                nv.note_off();
                self.voices.set(i, nv);
                return ;
            }
            i = i + 1;
        }
        proof {
            assert(!has_matching_voice(self.voices@, frequency_millihz as int));
        }
    }

    /// Renders one frame: steps every voice exactly once, in slot
    /// order, sums the outputs and normalizes by the voice count.
    pub fn mix(&mut self) -> (r: i64)
        requires
            old(self).wf(),
        ensures
            final(self).wf(),
            final(self).sample_rate == old(self).sample_rate,
            final(self).voices@ == old(self).voices@.map_values(
                |v: WaveTableOscillator<'a>| wt_stepped(v),
            ),
            r as int == mix_avg(sum_step_outputs(old(self).voices@), old(self).voices@.len() as int),
            -SAMPLE_SCALE <= r <= SAMPLE_SCALE,
    {
        let ghost vs0 = self.voices@;
        let n = self.voices.len();
        let mut acc: i64 = 0;
        let mut i: usize = 0;
        while i < n
            invariant
                old(self).wf(),
                self.sample_rate == old(self).sample_rate,
                n == self.voices@.len(),
                n == vs0.len(),
                vs0 == old(self).voices@,
                n <= MAX_POLYPHONY,
                i <= n,
                forall|j: int| 0 <= j < i ==> #[trigger] self.voices@[j] == wt_stepped(vs0[j]),
                forall|j: int| i <= j < n ==> #[trigger] self.voices@[j] == vs0[j],
                forall|j: int| 0 <= j < n ==> (#[trigger] self.voices@[j]).wf(),
                forall|j: int|
                    0 <= j < n ==> (#[trigger] self.voices@[j]).sample_rate == self.sample_rate,
                acc as int == sum_step_outputs(vs0.take(i as int)),
                -(i as int) * SAMPLE_SCALE <= acc as int <= (i as int) * SAMPLE_SCALE,
            decreases n - i,
        {
            proof {
                assert(vs0.take(i as int + 1).drop_last() =~= vs0.take(i as int));
                assert(vs0.take(i as int + 1).last() == vs0[i as int]);
            }
            let mut v = self.voices[i];
            let out = v.step();
            self.voices.set(i, v);
            acc = acc + out;
            i = i + 1;
        }
        proof {
            assert(vs0.take(n as int) =~= vs0);
            assert(self.voices@ =~= old(self).voices@.map_values(
                |v: WaveTableOscillator<'a>| wt_stepped(v),
            ));
        }
        if n == 0 {
            return 0;
        }
        proof {
            lemma_avg_in_scale(acc as int, n as int);
        }
        let r: i64 = if acc >= 0 {
            ((acc as u64) / (n as u64)) as i64
        } else {
            -(((-acc) as u64 / (n as u64)) as i64)
        };
        r
    }
}

/// A sum bounded by `n` full scales divides by `n` into one full scale.
proof fn lemma_avg_in_scale(sum: int, n: int)
    requires
        n >= 1,
        -n * SAMPLE_SCALE <= sum <= n * SAMPLE_SCALE,
    ensures
        -SAMPLE_SCALE <= mix_avg(sum, n) <= SAMPLE_SCALE,
{
    if sum >= 0 {
        assert(sum / n <= SAMPLE_SCALE) by (nonlinear_arith)
            requires
                n >= 1,
                0 <= sum <= n * SAMPLE_SCALE,
        ;
    } else {
        assert((-sum) / n <= SAMPLE_SCALE) by (nonlinear_arith)
            requires
                n >= 1,
                0 <= -sum <= n * SAMPLE_SCALE,
        ;
    }
}

} // verus!
