//! # Biquad Filter
//!
//! A "biquad" (biquadratic) second-order recursive filter with the
//! difference equation
//!
//! `y[n] = b0*x[n] + b1*x[n-1] + b2*x[n-2] - a1*y[n-1] - a2*y[n-2]`
//!
//! The five coefficients and the four delay registers are Q30
//! fixed-point values (see [`crate::SAMPLE_SCALE`]). Every step first
//! computes the output from the registers as they stand and only then
//! shifts them, preserving the causal ordering of the recurrence.
//!
//! Inputs, outputs and registers are saturated to [`REG_LIMIT`] — about
//! two billion times full scale, far beyond any audible signal — so the
//! arithmetic is total and needs no precondition.

use vstd::prelude::*;
use crate::SAMPLE_SCALE;
use crate::MAX_SAMPLE_RATE;
use crate::errors::SynthError;
use crate::trig::{sin_cycle, cos_half_cycle, sin_cycle_spec, cos_half_cycle_spec};

verus! {

/// Saturation bound for filter registers, inputs and outputs: `2^61`.
pub const REG_LIMIT: i64 = 2305843009213693952;

#[derive(Debug, Clone, Copy, PartialEq, Eq, Structural)]
pub struct BiquadFilter {
    /// Filter coefficients (Q30): `b` feed the input, `a` feed the output back.
    pub b0: i64,
    pub b1: i64,
    pub b2: i64,
    pub a1: i64,
    pub a2: i64,
    /// Delay registers (Q30): `x` is feed-forward, `y` is feed-back;
    /// `n_1` is the previous sample, `n_2` two samples ago.
    pub xn_1: i64,
    pub xn_2: i64,
    pub yn_1: i64,
    pub yn_2: i64,
}

/// Saturate a value into `[-REG_LIMIT, REG_LIMIT]`.
pub open spec fn clamp_reg(v: int) -> int {
    if v > REG_LIMIT {
        REG_LIMIT as int
    } else if v < -REG_LIMIT {
        -REG_LIMIT as int
    } else {
        v
    }
}

/// The output sample of one filter step on input `x`: the difference
/// equation over the saturated input and registers, descaled and
/// saturated.
pub open spec fn biquad_output(f: BiquadFilter, x: int) -> int {
    let xc = clamp_reg(x);
    let acc = f.b0 * xc + f.b1 * clamp_reg(f.xn_1 as int) + f.b2 * clamp_reg(f.xn_2 as int) - f.a1
        * clamp_reg(f.yn_1 as int) - f.a2 * clamp_reg(f.yn_2 as int);
    clamp_reg(crate::descale(acc))
}

/// The filter state after one step on input `x`: same coefficients,
/// registers shifted by one sample.
pub open spec fn biquad_stepped(f: BiquadFilter, x: int) -> BiquadFilter {
    BiquadFilter {
        b0: f.b0,
        b1: f.b1,
        b2: f.b2,
        a1: f.a1,
        a2: f.a2,
        xn_1: clamp_reg(x) as i64,
        xn_2: f.xn_1,
        yn_1: biquad_output(f, x) as i64,
        yn_2: f.yn_1,
    }
}

/// The filter state after stepping through a whole buffer, in order.
pub open spec fn biquad_run_state(f: BiquadFilter, xs: Seq<i64>) -> BiquadFilter
    decreases xs.len(),
{
    if xs.len() == 0 {
        f
    } else {
        biquad_run_state(biquad_stepped(f, xs[0] as int), xs.drop_first())
    }
}

/// The output samples of stepping through a whole buffer, in order.
pub open spec fn biquad_run_outputs(f: BiquadFilter, xs: Seq<i64>) -> Seq<i64>
    decreases xs.len(),
{
    if xs.len() == 0 {
        Seq::empty()
    } else {
        seq![biquad_output(f, xs[0] as int) as i64] + biquad_run_outputs(
            biquad_stepped(f, xs[0] as int),
            xs.drop_first(),
        )
    }
}

/// Quality-scaled resonance term `alpha = sin(omega0) / (2 * quality)`,
/// with the quality in thousandths: `sinw * 500 / quality_milli`.
pub open spec fn alpha_spec(sinw: int, quality_milli: int) -> int {
    (sinw * 500) / quality_milli
}

/// `(n * SAMPLE_SCALE) / d`, truncating toward zero: the fixed-point
/// quotient of a Q30 value `n` by a Q30 value `d`.
pub open spec fn scale_div(n: int, d: int) -> int {
    if n >= 0 {
        (n * SAMPLE_SCALE) / d
    } else {
        -(((-n) * SAMPLE_SCALE) / d)
    }
}

/// Parameters a filter constructor accepts: positive quality, a sample
/// rate in the supported range, and a cutoff below the Nyquist limit.
pub open spec fn filter_params_valid(
    frequency_millihz: int,
    sample_rate: int,
    quality_milli: int,
) -> bool {
    &&& quality_milli >= 1
    &&& 1 <= sample_rate <= MAX_SAMPLE_RATE
    &&& 2 * frequency_millihz < sample_rate * 1000
}

/// The low-pass filter the RBJ cookbook derivation yields for a cutoff,
/// sample rate and quality, evaluated in Q30 fixed point.
pub open spec fn low_pass_filter_spec(
    frequency_millihz: int,
    sample_rate: int,
    quality_milli: int,
) -> BiquadFilter {
    let den = sample_rate * 1000;
    let sinw = sin_cycle_spec(frequency_millihz, den);
    let cosw = cos_half_cycle_spec(2 * frequency_millihz, den);
    let d = SAMPLE_SCALE + alpha_spec(sinw, quality_milli);
    BiquadFilter {
        b0: scale_div((SAMPLE_SCALE - cosw) / 2, d) as i64,
        b1: scale_div(SAMPLE_SCALE - cosw, d) as i64,
        b2: scale_div((SAMPLE_SCALE - cosw) / 2, d) as i64,
        a1: (-scale_div(2 * cosw, d)) as i64,
        a2: scale_div(SAMPLE_SCALE - alpha_spec(sinw, quality_milli), d) as i64,
        xn_1: 0,
        xn_2: 0,
        yn_1: 0,
        yn_2: 0,
    }
}

/// The high-pass filter the RBJ cookbook derivation yields for a cutoff,
/// sample rate and quality, evaluated in Q30 fixed point.
pub open spec fn high_pass_filter_spec(
    frequency_millihz: int,
    sample_rate: int,
    quality_milli: int,
) -> BiquadFilter {
    let den = sample_rate * 1000;
    let sinw = sin_cycle_spec(frequency_millihz, den);
    let cosw = cos_half_cycle_spec(2 * frequency_millihz, den);
    let d = SAMPLE_SCALE + alpha_spec(sinw, quality_milli);
    BiquadFilter {
        b0: scale_div((SAMPLE_SCALE + cosw) / 2, d) as i64,
        b1: (-scale_div(SAMPLE_SCALE + cosw, d)) as i64,
        b2: scale_div((SAMPLE_SCALE + cosw) / 2, d) as i64,
        a1: (-scale_div(2 * cosw, d)) as i64,
        a2: scale_div(SAMPLE_SCALE - alpha_spec(sinw, quality_milli), d) as i64,
        xn_1: 0,
        xn_2: 0,
        yn_1: 0,
        yn_2: 0,
    }
}

impl Default for BiquadFilter {
    /// Creates a default BiquadFilter with everything zeroed
    fn default() -> (r: Self)
        ensures
            r.b0 == 0 && r.b1 == 0 && r.b2 == 0 && r.a1 == 0 && r.a2 == 0,
            r.xn_1 == 0 && r.xn_2 == 0 && r.yn_1 == 0 && r.yn_2 == 0,
    {
        BiquadFilter {
            b0: 0,
            b1: 0,
            b2: 0,
            a1: 0,
            a2: 0,
            xn_1: 0,
            xn_2: 0,
            yn_1: 0,
            yn_2: 0,
        }
    }
}

impl BiquadFilter {
    /// Creates a new BiquadFilter with the given coefficients and
    /// zeroed delay registers.
    pub fn new(b0: i64, b1: i64, b2: i64, a1: i64, a2: i64) -> (r: BiquadFilter)
        ensures
            r.b0 == b0 && r.b1 == b1 && r.b2 == b2 && r.a1 == a1 && r.a2 == a2,
            r.xn_1 == 0 && r.xn_2 == 0 && r.yn_1 == 0 && r.yn_2 == 0,
    {
        BiquadFilter { b0, b1, b2, a1, a2, xn_1: 0, xn_2: 0, yn_1: 0, yn_2: 0 }
    }

    /// Creates a BiquadFilter set up as a low pass filter with the
    /// given cutoff (millihertz) at the given sample rate (hertz), and
    /// with the given quality in thousandths (controls how sharp the
    /// cutoff is). Rejects a zero quality, a sample rate outside the
    /// supported range, and a cutoff at or above the Nyquist limit.
    pub fn low_pass(frequency_millihz: u64, sample_rate: u64, quality_milli: u64) -> (r: Result<
        BiquadFilter,
        SynthError,
    >)
        ensures
            filter_params_valid(
                frequency_millihz as int,
                sample_rate as int,
                quality_milli as int,
            ) ==> r == Ok::<BiquadFilter, SynthError>(
                low_pass_filter_spec(
                    frequency_millihz as int,
                    sample_rate as int,
                    quality_milli as int,
                ),
            ),
            !filter_params_valid(
                frequency_millihz as int,
                sample_rate as int,
                quality_milli as int,
            ) ==> r == Err::<BiquadFilter, SynthError>(SynthError::InvalidParameter),
    {
        if !(quality_milli >= 1 && sample_rate >= 1 && sample_rate <= MAX_SAMPLE_RATE
            && frequency_millihz < sample_rate * 1000 && 2 * frequency_millihz < sample_rate
            * 1000) {
            return Err(SynthError::InvalidParameter);
        }
        let den: u64 = sample_rate * 1000;
        let sinw: i64 = sin_cycle(frequency_millihz, den);
        let cosw: i64 = cos_half_cycle(2 * frequency_millihz, den);
        let alpha: u64 = sinw as u64 * 500 / quality_milli;
        let d: u64 = SAMPLE_SCALE as u64 + alpha;
        let cosp: u64 = (SAMPLE_SCALE - cosw) as u64;
        let b0: i64 = scale_div_pos(cosp / 2, d);
        let b1: i64 = scale_div_pos(cosp, d);
        let a1: i64 = neg_scale_div_signed(cosw, d);
        let a2: i64 = a2_coefficient(alpha, d);
        Ok(BiquadFilter { b0, b1, b2: b0, a1, a2, xn_1: 0, xn_2: 0, yn_1: 0, yn_2: 0 })
    }

    /// Creates a BiquadFilter set up as a high pass filter with the
    /// given cutoff (millihertz) at the given sample rate (hertz), and
    /// with the given quality in thousandths (controls how sharp the
    /// cutoff is). Rejects the same parameters as `low_pass`.
    pub fn high_pass(frequency_millihz: u64, sample_rate: u64, quality_milli: u64) -> (r: Result<
        BiquadFilter,
        SynthError,
    >)
        ensures
            filter_params_valid(
                frequency_millihz as int,
                sample_rate as int,
                quality_milli as int,
            ) ==> r == Ok::<BiquadFilter, SynthError>(
                high_pass_filter_spec(
                    frequency_millihz as int,
                    sample_rate as int,
                    quality_milli as int,
                ),
            ),
            !filter_params_valid(
                frequency_millihz as int,
                sample_rate as int,
                quality_milli as int,
            ) ==> r == Err::<BiquadFilter, SynthError>(SynthError::InvalidParameter),
    {
        if !(quality_milli >= 1 && sample_rate >= 1 && sample_rate <= MAX_SAMPLE_RATE
            && frequency_millihz < sample_rate * 1000 && 2 * frequency_millihz < sample_rate
            * 1000) {
            return Err(SynthError::InvalidParameter);
        }
        let den: u64 = sample_rate * 1000;
        let sinw: i64 = sin_cycle(frequency_millihz, den);
        let cosw: i64 = cos_half_cycle(2 * frequency_millihz, den);
        let alpha: u64 = sinw as u64 * 500 / quality_milli;
        let d: u64 = SAMPLE_SCALE as u64 + alpha;
        let cosp: u64 = (SAMPLE_SCALE + cosw) as u64;
        let b0: i64 = scale_div_pos(cosp / 2, d);
        let b1: i64 = -scale_div_pos(cosp, d);
        let a1: i64 = neg_scale_div_signed(cosw, d);
        let a2: i64 = a2_coefficient(alpha, d);
        Ok(BiquadFilter { b0, b1, b2: b0, a1, a2, xn_1: 0, xn_2: 0, yn_1: 0, yn_2: 0 })
    }

    /// Steps the filter using the given input sample, and returns the
    /// next output sample.
    pub fn step(&mut self, x: i64) -> (y: i64)
        ensures
            y as int == biquad_output(*old(self), x as int),
            *final(self) == biquad_stepped(*old(self), x as int),
    {
        let xc: i64 = clamp_to_limit(x);
        let c1: i64 = clamp_to_limit(self.xn_1);
        let c2: i64 = clamp_to_limit(self.xn_2);
        let c3: i64 = clamp_to_limit(self.yn_1);
        let c4: i64 = clamp_to_limit(self.yn_2);
        proof {
            lemma_mul_in_limits(self.b0 as int, xc as int);
            lemma_mul_in_limits(self.b1 as int, c1 as int);
            lemma_mul_in_limits(self.b2 as int, c2 as int);
            lemma_mul_in_limits(self.a1 as int, c3 as int);
            lemma_mul_in_limits(self.a2 as int, c4 as int);
        }
        let acc: i128 = self.b0 as i128 * xc as i128 + self.b1 as i128 * c1 as i128 + self.b2
            as i128 * c2 as i128 - self.a1 as i128 * c3 as i128 - self.a2 as i128 * c4 as i128;
        let descaled: i128 = if acc >= 0 {
            ((acc as u128) / (SAMPLE_SCALE as u128)) as i128
        } else {
            -(((-acc) as u128 / (SAMPLE_SCALE as u128)) as i128)
        };
        let y: i64 = if descaled > REG_LIMIT as i128 {
            REG_LIMIT
        } else if descaled < -REG_LIMIT as i128 {
            -REG_LIMIT
        } else {
            descaled as i64
        };
        self.xn_2 = self.xn_1;
        self.xn_1 = xc;
        self.yn_2 = self.yn_1;
        self.yn_1 = y;
        y
    }

    /// Steps the filter using the given input samples, and returns the
    /// corresponding output samples, in order.
    pub fn step_buffer(&mut self, xs: &Vec<i64>) -> (ys: Vec<i64>)
        ensures
            ys@ == biquad_run_outputs(*old(self), xs@),
            *final(self) == biquad_run_state(*old(self), xs@),
    {
        let ghost f0 = *self;
        let mut ys: Vec<i64> = Vec::new();
        let mut i: usize = 0;
        while i < xs.len()
            invariant
                i <= xs.len(),
                *self == biquad_run_state(f0, xs@.take(i as int)),
                ys@ == biquad_run_outputs(f0, xs@.take(i as int)),
            decreases xs.len() - i,
        {
            let x = xs[i];
            proof {
                lemma_biquad_run_snoc(f0, xs@.take(i as int), x);
                assert(xs@.take(i as int).push(x) =~= xs@.take(i as int + 1));
            }
            let y = self.step(x);
            ys.push(y);
            i = i + 1;
        }
        proof {
            assert(xs@.take(xs@.len() as int) =~= xs@);
        }
        ys
    }
}

/// Law: a filter whose five coefficients are all zero maps every input
/// sample to zero, whatever its delay registers hold.
pub proof fn lemma_zero_filter_is_silent(f: BiquadFilter, x: int)
    requires
        f.b0 == 0,
        f.b1 == 0,
        f.b2 == 0,
        f.a1 == 0,
        f.a2 == 0,
    ensures
        biquad_output(f, x) == 0,
{
    let xc = clamp_reg(x);
    assert(f.b0 * xc == 0) by (nonlinear_arith)
        requires
            f.b0 == 0,
    ;
    assert(f.b1 * clamp_reg(f.xn_1 as int) == 0) by (nonlinear_arith)
        requires
            f.b1 == 0,
    ;
    assert(f.b2 * clamp_reg(f.xn_2 as int) == 0) by (nonlinear_arith)
        requires
            f.b2 == 0,
    ;
    assert(f.a1 * clamp_reg(f.yn_1 as int) == 0) by (nonlinear_arith)
        requires
            f.a1 == 0,
    ;
    assert(f.a2 * clamp_reg(f.yn_2 as int) == 0) by (nonlinear_arith)
        requires
            f.a2 == 0,
    ;
}

/// Running a buffer extended by one sample is running the buffer, then
/// stepping once more from the state it left.
proof fn lemma_biquad_run_snoc(f: BiquadFilter, xs: Seq<i64>, x: i64)
    ensures
        biquad_run_state(f, xs.push(x)) == biquad_stepped(biquad_run_state(f, xs), x as int),
        biquad_run_outputs(f, xs.push(x)) == biquad_run_outputs(f, xs).push(
            biquad_output(biquad_run_state(f, xs), x as int) as i64,
        ),
    decreases xs.len(),
{
    assert(xs.push(x).len() == xs.len() + 1);
    if xs.len() == 0 {
        let g = biquad_stepped(f, x as int);
        assert(xs.push(x)[0] == x);
        assert(xs.push(x).drop_first() =~= Seq::<i64>::empty());
        assert(biquad_run_state(g, Seq::<i64>::empty()) == g);
        assert(biquad_run_outputs(g, Seq::<i64>::empty()) =~= Seq::<i64>::empty());
        assert(biquad_run_outputs(f, xs.push(x)) =~= biquad_run_outputs(f, xs).push(
            biquad_output(biquad_run_state(f, xs), x as int) as i64,
        ));
    } else {
        let g = biquad_stepped(f, xs[0] as int);
        assert(xs.push(x)[0] == xs[0]);
        assert(xs.push(x).drop_first() =~= xs.drop_first().push(x));
        lemma_biquad_run_snoc(g, xs.drop_first(), x);
        assert(biquad_run_outputs(f, xs.push(x)) =~= biquad_run_outputs(f, xs).push(
            biquad_output(biquad_run_state(f, xs), x as int) as i64,
        ));
    }
}

/// Saturate a sample into `[-REG_LIMIT, REG_LIMIT]`.
fn clamp_to_limit(v: i64) -> (r: i64)
    ensures
        r as int == clamp_reg(v as int),
{
    if v > REG_LIMIT {
        REG_LIMIT
    } else if v < -REG_LIMIT {
        -REG_LIMIT
    } else {
        v
    }
}

/// `scale_div` for a nonnegative numerator.
fn scale_div_pos(n: u64, d: u64) -> (r: i64)
    requires
        SAMPLE_SCALE <= d,
        n <= 4 * SAMPLE_SCALE,
    ensures
        r as int == scale_div(n as int, d as int),
        0 <= r <= n,
{
    proof {
        lemma_scale_div_le(n as int, d as int);
    }
    ((n as u128 * SAMPLE_SCALE as u128) / d as u128) as i64
}

/// The `a1` coefficient `-2 * cosw / (1 + alpha)`, sign handled by
/// branching so every division runs on nonnegative operands.
fn neg_scale_div_signed(cosw: i64, d: u64) -> (r: i64)
    requires
        SAMPLE_SCALE <= d,
        -SAMPLE_SCALE <= cosw <= SAMPLE_SCALE,
    ensures
        r as int == -scale_div(2 * cosw as int, d as int),
        -2 * SAMPLE_SCALE <= r <= 2 * SAMPLE_SCALE,
{
    if cosw >= 0 {
        let n: u64 = 2 * (cosw as u64);
        proof {
            lemma_scale_div_le(n as int, d as int);
        }
        -(((n as u128 * SAMPLE_SCALE as u128) / d as u128) as i64)
    } else {
        let n: u64 = 2 * ((-cosw) as u64);
        proof {
            lemma_scale_div_le(n as int, d as int);
        }
        ((n as u128 * SAMPLE_SCALE as u128) / d as u128) as i64
    }
}

/// The `a2` coefficient `(1 - alpha) / (1 + alpha)`, sign handled by
/// branching so every division runs on nonnegative operands.
fn a2_coefficient(alpha: u64, d: u64) -> (r: i64)
    requires
        d == SAMPLE_SCALE + alpha,
    ensures
        r as int == scale_div(SAMPLE_SCALE - alpha as int, d as int),
        -SAMPLE_SCALE <= r <= SAMPLE_SCALE,
{
    if alpha <= SAMPLE_SCALE as u64 {
        let n: u64 = SAMPLE_SCALE as u64 - alpha;
        proof {
            lemma_scale_div_le(n as int, d as int);
        }
        ((n as u128 * SAMPLE_SCALE as u128) / d as u128) as i64
    } else {
        let n: u64 = alpha - SAMPLE_SCALE as u64;
        proof {
            lemma_scale_div_le(n as int, d as int);
            assert((n * SAMPLE_SCALE) / (d as int) <= SAMPLE_SCALE) by (nonlinear_arith)
                requires
                    n == alpha - SAMPLE_SCALE,
                    d == SAMPLE_SCALE + alpha,
                    alpha > SAMPLE_SCALE,
            ;
        }
        -(((n as u128 * SAMPLE_SCALE as u128) / d as u128) as i64)
    }
}

/// The product of any 64-bit value with a saturated register stays far
/// inside the 128-bit range.
proof fn lemma_mul_in_limits(a: int, b: int)
    requires
        -9223372036854775808 <= a <= 9223372036854775807,
        -2305843009213693952 <= b <= 2305843009213693952,
    ensures
        -21267647932558653966460912964485513216 <= a * b
            <= 21267647932558653966460912964485513216,
{
    assert(-21267647932558653966460912964485513216 <= a * b
        <= 21267647932558653966460912964485513216) by (nonlinear_arith)
        requires
            -9223372036854775808 <= a <= 9223372036854775807,
            -2305843009213693952 <= b <= 2305843009213693952,
    ;
}

/// Dividing `n * SAMPLE_SCALE` by a denominator of at least one full
/// scale cannot exceed `n`.
proof fn lemma_scale_div_le(n: int, d: int)
    requires
        0 <= n,
        SAMPLE_SCALE <= d,
    ensures
        0 <= (n * SAMPLE_SCALE) / d <= n,
{
    assert(0 <= (n * SAMPLE_SCALE) / d <= n) by (nonlinear_arith)
        requires
            0 <= n,
            SAMPLE_SCALE <= d,
    ;
}

} // verus!
