//! Fixed-point sine and cosine.
//!
//! The oscillators and the filter need trigonometric values at angles
//! that are exact rational fractions of a cycle. This module evaluates
//! them in pure integer arithmetic with the Bhaskara I rational
//! approximation
//!
//! `sin(pi*t) ~= 16*t*(1-t) / (5 - 4*t*(1-t))` for `t` in `[0, 1]`,
//!
//! whose worst-case error is below 0.002 — well under the audible
//! tolerance of this synthesizer core. The result is a Q30 sample in
//! `[-SAMPLE_SCALE, SAMPLE_SCALE]`.

use vstd::prelude::*;
use crate::SAMPLE_SCALE;

verus! {

/// Largest denominator the half-cycle evaluation accepts.
pub const MAX_TRIG_DEN: u64 = 2000000000;

/// `sin(pi * num/den) * SAMPLE_SCALE`, rounded down, by the Bhaskara I
/// rational approximation. Meaningful for `0 <= num <= den`.
pub open spec fn sin_half_cycle_spec(num: int, den: int) -> int {
    let p = num * (den - num);
    (16 * p * SAMPLE_SCALE) / (5 * den * den - 4 * p)
}

/// `cos(pi * num/den) * SAMPLE_SCALE`: the sine of the complementary
/// angle, negated past the quarter turn. Meaningful for `0 <= num <= den`.
pub open spec fn cos_half_cycle_spec(num: int, den: int) -> int {
    if 2 * num <= den {
        sin_half_cycle_spec(den - 2 * num, 2 * den)
    } else {
        -sin_half_cycle_spec(2 * num - den, 2 * den)
    }
}

/// `sin(2 * pi * num/den) * SAMPLE_SCALE`: one full cycle, the second
/// half mirrored below zero. Meaningful for `0 <= num < den`.
pub open spec fn sin_cycle_spec(num: int, den: int) -> int {
    if 2 * num <= den {
        sin_half_cycle_spec(2 * num, den)
    } else {
        -sin_half_cycle_spec(2 * num - den, den)
    }
}

/// The numerator of the Bhaskara quotient never exceeds the denominator
/// times `SAMPLE_SCALE`, so the quotient stays within one full scale.
proof fn lemma_bhaskara_bounds(num: int, den: int)
    requires
        1 <= den <= 2000000000,
        0 <= num <= den,
    ensures
        0 <= num * (den - num) <= 1000000000000000000,
        den * den <= 4000000000000000000,
        5 * den * den <= 20000000000000000000,
        4 * (num * (den - num)) <= den * den,
        5 * den * den - 4 * (num * (den - num)) >= 4,
        16 * (num * (den - num)) * SAMPLE_SCALE <= SAMPLE_SCALE * (5 * den * den - 4 * (num * (den
            - num))),
        0 <= sin_half_cycle_spec(num, den) <= SAMPLE_SCALE,
{
    let p = num * (den - num);
    assert(0 <= p && 4 * p <= den * den && den * den <= 4000000000000000000 && 5 * den * den
        <= 20000000000000000000) by (nonlinear_arith)
        requires
            1 <= den <= 2000000000,
            0 <= num <= den,
            p == num * (den - num),
    ;
    let dd = 5 * den * den - 4 * p;
    assert(dd >= 4 * den * den >= 4) by (nonlinear_arith)
        requires
            1 <= den,
            4 * p <= den * den,
            dd == 5 * den * den - 4 * p,
    ;
    assert(16 * p * SAMPLE_SCALE <= SAMPLE_SCALE * dd) by (nonlinear_arith)
        requires
            0 <= p,
            dd == 5 * den * den - 4 * p,
            4 * p <= den * den,
    ;
    assert(0 <= (16 * p * SAMPLE_SCALE) / dd <= SAMPLE_SCALE) by (nonlinear_arith)
        requires
            dd >= 4,
            0 <= 16 * p * SAMPLE_SCALE <= SAMPLE_SCALE * dd,
    ;
}

/// `sin(pi * num/den)` as a Q30 sample, for an angle given as a
/// fraction `num/den` of a half turn.
pub fn sin_half_cycle(num: u64, den: u64) -> (r: i64)
    requires
        1 <= den <= MAX_TRIG_DEN,
        num <= den,
    ensures
        r == sin_half_cycle_spec(num as int, den as int),
        0 <= r <= SAMPLE_SCALE,
{
    proof {
        lemma_bhaskara_bounds(num as int, den as int);
    }
    let den128: u128 = den as u128;
    let p: u128 = num as u128 * (den - num) as u128;
    let dd: u128 = 5 * den128 * den128 - 4 * p;
    let n128: u128 = 16 * p * (SAMPLE_SCALE as u128);
    proof {
        assert(n128 / dd <= SAMPLE_SCALE) by (nonlinear_arith)
            requires
                dd >= 4,
                n128 <= SAMPLE_SCALE * dd,
        ;
    }
    let q: u128 = n128 / dd;
    q as i64
}

/// `cos(pi * num/den)` as a Q30 sample, for an angle given as a
/// fraction `num/den` of a half turn.
pub fn cos_half_cycle(num: u64, den: u64) -> (r: i64)
    requires
        1 <= den,
        2 * den <= MAX_TRIG_DEN,
        num <= den,
    ensures
        r == cos_half_cycle_spec(num as int, den as int),
        -SAMPLE_SCALE <= r <= SAMPLE_SCALE,
{
    if 2 * num <= den {
        sin_half_cycle(den - 2 * num, 2 * den)
    } else {
        let s = sin_half_cycle(2 * num - den, 2 * den);
        -s
    }
}

/// `sin(2 * pi * num/den)` as a Q30 sample, for a phase given as a
/// fraction `num/den` of a full cycle.
pub fn sin_cycle(num: u64, den: u64) -> (r: i64)
    requires
        1 <= den <= MAX_TRIG_DEN,
        num < den,
    ensures
        r == sin_cycle_spec(num as int, den as int),
        -SAMPLE_SCALE <= r <= SAMPLE_SCALE,
        2 * num <= den ==> 0 <= r,
{
    if 2 * num <= den {
        sin_half_cycle(2 * num, den)
    } else {
        let s = sin_half_cycle(2 * num - den, den);
        -s
    }
}

} // verus!
