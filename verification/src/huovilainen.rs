//! Nonlinear four-pole resonant lowpass ladder filter.
//!
//! A 2x-oversampled recursive structure: four cascaded one-pole stages with
//! a tanh-shaped nonlinearity scaled by a fixed thermal-voltage constant,
//! the last stage fed back into the first scaled by a resonance-derived
//! gain, and a half-sample delay-compensation stage. Tuning gain, asymmetry
//! correction and feedback gain are functions of `cutoff / sampleRate` and
//! resonance only, and are recomputed only when `(cutoff, resonance)` differ
//! from the previous call; the type invariant pins every cached gain —
//! tuning, asymmetry correction and feedback — to its defining formula, so
//! the cache can never go stale, and `process` is specified exactly as two
//! applications of [`ladder_pass`].
//!
//! Every internal state value saturates at a generous headroom bound
//! (`STAGE_MAX`, 64 full-scale units), so a drive outside the stable domain
//! (the caller's responsibility per the ladder's contract) stays non-fatal.

use vstd::prelude::*;

use crate::filter::Filter;
use crate::fixed::{clamp64, exp_neg, exp_neg_of, fdiv, fixdiv, fixmul, fixmul_wide, fmul, one,
    spec_clamp, tdiv, ONE};

verus! {

/// Thermal voltage constant: 0.000025 in Q32.32.
pub const THERMAL: i64 = 107374;

/// `1 / THERMAL`: exact, as the reciprocal of 0.000025.
pub const THERMAL_INV: i64 = 40000;

/// 2*pi in Q32.32.
pub const TWO_PI: i64 = 26986075409;

/// Coefficients of the cubic frequency-correction fit, in Q32.32:
/// `fcr = 1.8730 fc^3 + 0.4955 fc^2 - 0.6490 fc + 0.9988`.
pub const FCR3: i64 = 8044473745;

pub const FCR2: i64 = 2128156295;

pub const FCR1: i64 = 2787433775;

pub const FCR0: i64 = 4289813335;

/// Coefficients of the quadratic asymmetry-correction fit, in Q32.32:
/// `acr = -3.9364 fc^2 + 1.8409 fc + 0.9968`.
pub const ACR2: i64 = 16906709264;

pub const ACR1: i64 = 7906605295;

pub const ACR0: i64 = 4281223401;

/// Odd-polynomial coefficients of the tanh approximation
/// `a / sqrt(1 + a^2)` with `a = x + 0.16489087 x^3 + 0.00985468 x^5`.
pub const TANH_C3: i64 = 708200894;

pub const TANH_C5: i64 = 42325528;

/// Saturation bound of every stage and delay value: 64 full-scale units.
pub const STAGE_MAX: i64 = 64 * 4294967296;

/// Largest tuning gain: `1 / THERMAL` in Q32.32.
pub const TUNE_MAX: i64 = 40000 * 4294967296;

/// The normalised cutoff `clamp(cutoff, 0, rate/2) / rate`, in `[0, ONE/2]`.
pub open spec fn fc_of(cutoff: int, sample_rate: int) -> int {
    fdiv(spec_clamp(cutoff, 0, sample_rate / 2), sample_rate)
}

/// The asymmetry-correction gain derived from a cutoff and sample rate.
pub open spec fn acr_of(cutoff: int, sample_rate: int) -> int {
    let fc = fc_of(cutoff, sample_rate);
    ACR0 + fmul(ACR1 as int, fc) - fmul(ACR2 as int, fmul(fc, fc))
}

/// The resonance feedback gain: `4 * resonance * acr`.
pub open spec fn res_quad_of(cutoff: int, resonance: int, sample_rate: int) -> int {
    fmul(4 * resonance, acr_of(cutoff, sample_rate))
}

/// The tuning gain derived from a cutoff and sample rate:
/// `(1 - exp(-2 pi f fcr)) / THERMAL` over the oversampled normalised
/// cutoff `f` and the cubic frequency-correction fit `fcr`.
pub open spec fn tune_of(cutoff: int, sample_rate: int) -> int {
    let fc = fc_of(cutoff, sample_rate);
    let f = fc / 2;
    let fc2 = fmul(fc, fc);
    let fc3 = fmul(fc2, fc);
    let fcr = fmul(FCR3 as int, fc3) + fmul(FCR2 as int, fc2) - fmul(FCR1 as int, fc) + FCR0;
    let w = spec_clamp(fmul(fmul(TWO_PI as int, f), fcr), 0, 32 * one());
    (one() - exp_neg_of(w)) * THERMAL_INV
}

/// The integer square root: the unique `r` with `r^2 <= x < (r+1)^2`.
pub open spec fn isqrt_of(x: int) -> int {
    choose|r: int| 0 <= r && #[trigger] (r * r) <= x && x < (r + 1) * (r + 1)
}

/// Two integer square roots of the same value coincide.
pub proof fn lemma_isqrt_unique(x: int, a: int, b: int)
    requires
        0 <= a,
        a * a <= x < (a + 1) * (a + 1),
        0 <= b,
        b * b <= x < (b + 1) * (b + 1),
    ensures
        a == b,
{
    assert(a == b) by (nonlinear_arith)
        requires
            0 <= a,
            a * a <= x < (a + 1) * (a + 1),
            0 <= b,
            b * b <= x < (b + 1) * (b + 1),
    ;
}

/// Integer square root on `u128`: exactly [`isqrt_of`].
pub fn isqrt128(x: u128) -> (r: u128)
    requires
        x < 0x40000000000000000000000,
    ensures
        r * r <= x,
        x < (r + 1) * (r + 1),
        r <= 0x2000000000000,
        r as int == isqrt_of(x as int),
{
    let mut lo: u128 = 0;
    let mut hi: u128 = 0x2000000000000;
    while lo < hi
        invariant
            lo <= hi <= 0x2000000000000,
            lo * lo <= x,
            x < (hi + 1) * (hi + 1),
        decreases hi - lo,
    {
        let mid = (lo + hi + 1) / 2;
        proof {
            assert(lo < mid <= hi) by (nonlinear_arith)
                requires
                    lo < hi,
                    mid == (lo + hi + 1) / 2,
            ;
            assert(mid * mid <= 0x2000000000000int * 0x2000000000000int) by (nonlinear_arith)
                requires
                    0 <= mid <= 0x2000000000000,
            ;
        }
        if mid * mid <= x {
            lo = mid;
        } else {
            hi = mid - 1;
            proof {
                assert(x < ((mid - 1) + 1) * ((mid - 1) + 1));
            }
        }
    }
    proof {
        assert(0 <= lo as int && (lo as int) * (lo as int) <= x as int && (x as int) < ((
        lo as int) + 1) * ((lo as int) + 1));
        let c = isqrt_of(x as int);
        assert(0 <= c && c * c <= x as int && (x as int) < (c + 1) * (c + 1));
        lemma_isqrt_unique(x as int, lo as int, c);
    }
    lo
}

/// The tanh shaper's defining integer formula: clamp the input, apply the
/// odd polynomial, divide its magnitude by the integer square root of
/// `1 + a^2`, and restore the sign.
#[verifier::opaque]
pub open spec fn tanh_of(x_raw: int) -> int {
    let x = spec_clamp(x_raw, -8 * one(), 8 * one());
    let x2 = fmul(x, x);
    let x3 = fmul(x2, x);
    let x5 = fmul(x3, x2);
    let a = x + fmul(TANH_C3 as int, x3) + fmul(x5, TANH_C5 as int);
    let a_abs = if a >= 0 {
        a
    } else {
        -a
    };
    let mag = (a_abs * one()) / isqrt_of(one() * one() + a_abs * a_abs);
    if a >= 0 {
        mag
    } else {
        -mag
    }
}

/// The bounded tanh shaper: `a / sqrt(1 + a^2)` on the odd polynomial of
/// the (internally clamped) input. Always within `[-ONE, ONE]`.
pub fn tanh_fixed(x_raw: i64) -> (t: i64)
    requires
        -0x200000000000 <= x_raw <= 0x200000000000,
    ensures
        t == tanh_of(x_raw as int),
        -ONE <= t <= ONE,
        x_raw == 0 ==> t == 0,
{
    proof {
        reveal(tanh_of);
    }
    let x = clamp64(x_raw, -8 * ONE, 8 * ONE);
    let x2 = fixmul(x, x);
    proof {
        assert(0 <= fmul(x as int, x as int) <= 64 * one() && fmul(x as int, x as int) == (
        x as int) * (x as int) / one()) by (nonlinear_arith)
            requires
                -8 * one() <= x <= 8 * one(),
                fmul(x as int, x as int) == tdiv((x as int) * (x as int), one()),
                tdiv((x as int) * (x as int), one()) == (if (x as int) * (x as int) >= 0 {
                    ((x as int) * (x as int)) / one()
                } else {
                    -((-((x as int) * (x as int))) / one())
                }),
                one() == 4294967296,
        ;
    }
    let x3 = fixmul(x2, x);
    proof {
        let p3 = (x2 as int) * (x as int);
        assert(-(512 * one() * one()) <= p3 <= 512 * one() * one()) by (nonlinear_arith)
            requires
                p3 == (x2 as int) * (x as int),
                0 <= x2 <= 64 * one(),
                -8 * one() <= x <= 8 * one(),
        ;
        crate::fixed::lemma_tdiv_approx(p3);
    }
    let x5 = fixmul(x3, x2);
    proof {
        let p5 = (x3 as int) * (x2 as int);
        assert(-(0x9000 * one() * one()) <= p5 <= 0x9000 * one() * one()) by (nonlinear_arith)
            requires
                p5 == (x3 as int) * (x2 as int),
                0 <= x2 <= 64 * one(),
                -513 * one() <= x3 <= 513 * one(),
        ;
        crate::fixed::lemma_tdiv_approx(p5);
    }
    let t3 = fixmul(TANH_C3, x3);
    let t5 = fixmul_wide(x5, TANH_C5);
    proof {
        let q3 = (TANH_C3 as int) * (x3 as int);
        assert(-(90 * one() * one()) <= q3 <= 90 * one() * one()) by (nonlinear_arith)
            requires
                q3 == 708200894 * (x3 as int),
                -513 * one() <= x3 <= 513 * one(),
                one() == 4294967296,
        ;
        crate::fixed::lemma_tdiv_approx(q3);
        let q5 = (x5 as int) * (TANH_C5 as int);
        assert(-(400 * one() * one()) <= q5 <= 400 * one() * one()) by (nonlinear_arith)
            requires
                q5 == (x5 as int) * 42325528,
                -0x9001 * one() <= x5 <= 0x9001 * one(),
                one() == 4294967296,
        ;
        crate::fixed::lemma_tdiv_approx(q5);
    }
    proof {
        if x_raw == 0 {
            crate::fixed::lemma_fmul_zero(0);
            crate::fixed::lemma_fmul_zero(TANH_C3 as int);
            crate::fixed::lemma_fmul_zero(TANH_C5 as int);
            assert(x == 0 && x2 == 0 && x3 == 0 && x5 == 0 && t3 == 0 && t5 == 0);
        }
    }
    let a: i64 = x + t3 + t5;
    let a_abs: i64 = if a >= 0 {
        a
    } else {
        -a
    };
    let aw: i128 = a_abs as i128;
    proof {
        assert((aw * aw) < 0x40000000000000000000000int && (ONE as i128) * (ONE as i128)
            + aw * aw < 0x40000000000000000000000int) by (nonlinear_arith)
            requires
                0 <= aw <= 512 * 4294967296int,
        ;
    }
    let den: u128 = isqrt128(((ONE as i128) * (ONE as i128) + aw * aw) as u128);
    proof {
        assert(den >= a_abs && den >= ONE) by (nonlinear_arith)
            requires
                (den as int) * (den as int) <= one() * one() + (a_abs as int) * (a_abs as int),
                ((den as int) + 1) * ((den as int) + 1) > one() * one() + (a_abs as int) * (
                a_abs as int),
                0 <= a_abs,
                0 <= den,
                one() == 4294967296,
        ;
        assert(0 <= (a_abs as int) * one() / (den as int) <= one()) by (nonlinear_arith)
            requires
                0 <= a_abs <= den,
                one() <= den,
                one() == 4294967296,
        ;
    }
    let mag: i64 = (((a_abs as i128) * (ONE as i128)) / (den as i128)) as i64;
    if a >= 0 {
        mag
    } else {
        -mag
    }
}

/// The thermal scaling of a saturated stage value stays within one unit.
proof fn lemma_thermal_product(v: int)
    requires
        -64 * 4294967296 <= v <= 64 * 4294967296,
    ensures
        -(one() * one()) <= v * (THERMAL as int) <= one() * one(),
        -2 * one() <= fmul(v, THERMAL as int) <= 2 * one(),
{
    assert(-(one() * one()) <= v * 107374 <= one() * one()) by (nonlinear_arith)
        requires
            -64 * 4294967296int <= v <= 64 * 4294967296int,
            one() == 4294967296,
    ;
    crate::fixed::lemma_tdiv_approx(v * (THERMAL as int));
}

/// Law: the tanh shaper is an odd function, as the nonlinearity of the
/// ladder requires: negating the input negates the output exactly.
pub proof fn lemma_tanh_odd(x: int)
    ensures
        tanh_of(-x) == -tanh_of(x),
{
    reveal(tanh_of);
    let c = spec_clamp(x, -8 * one(), 8 * one());
    assert(spec_clamp(-x, -8 * one(), 8 * one()) == -c);
    let x2 = fmul(c, c);
    assert((-c) * (-c) == c * c) by (nonlinear_arith);
    let x3 = fmul(x2, c);
    assert(x2 * (-c) == -(x2 * c)) by (nonlinear_arith);
    crate::fixed::lemma_tdiv_neg(x2 * c);
    assert(fmul(x2, -c) == -x3);
    let x5 = fmul(x3, x2);
    assert((-x3) * x2 == -(x3 * x2)) by (nonlinear_arith);
    crate::fixed::lemma_tdiv_neg(x3 * x2);
    assert(fmul(-x3, x2) == -x5);
    assert((TANH_C3 as int) * (-x3) == -((TANH_C3 as int) * x3)) by (nonlinear_arith);
    crate::fixed::lemma_tdiv_neg((TANH_C3 as int) * x3);
    assert(fmul(TANH_C3 as int, -x3) == -fmul(TANH_C3 as int, x3));
    assert((-x5) * (TANH_C5 as int) == -(x5 * (TANH_C5 as int))) by (nonlinear_arith);
    crate::fixed::lemma_tdiv_neg(x5 * (TANH_C5 as int));
    assert(fmul(-x5, TANH_C5 as int) == -fmul(x5, TANH_C5 as int));
    let a = c + fmul(TANH_C3 as int, x3) + fmul(x5, TANH_C5 as int);
    if a == 0 {
        assert(0 * 0 == 0) by (nonlinear_arith);
        let v = one() * one();
        assert(one() * one() + 0 * 0 == v);
        assert(one() * one() <= v && v < (one() + 1) * (one() + 1)) by (nonlinear_arith)
            requires
                v == one() * one(),
                one() == 4294967296,
        ;
        assert(exists|r: int| 0 <= r && #[trigger] (r * r) <= v && v < (r + 1) * (r + 1)) by {
            assert(0 <= one() && (one() * one()) <= v && v < (one() + 1) * (one() + 1));
        }
        let q = isqrt_of(v);
        assert(0 <= q && q * q <= v && v < (q + 1) * (q + 1));
        assert(q >= 1) by (nonlinear_arith)
            requires
                0 <= q,
                q * q <= v,
                v < (q + 1) * (q + 1),
                v == one() * one(),
                one() == 4294967296,
        ;
        assert((0int * one()) / q == 0) by (nonlinear_arith)
            requires
                q >= 1,
        ;
    }
}

/// One oversampled pass of the ladder over its state
/// `(stage, stage_tanh, delay)`: the resonance feedback into the first
/// stage, the four cascaded one-pole stages with their tanh shapers, and
/// the half-sample delay-compensation stage.
#[verifier::opaque]
pub open spec fn ladder_pass(
    stage_tanh: Seq<i64>,
    delay: Seq<i64>,
    in_sample: int,
    tune: int,
    res_quad: int,
) -> (Seq<i64>, Seq<i64>, Seq<i64>) {
    let input = in_sample - fmul(delay[5] as int, res_quad);
    let t_in = tanh_of(fmul(input, THERMAL as int));
    let s0 = spec_clamp(
        delay[0] + fmul(tune, t_in - stage_tanh[0]) as int,
        -STAGE_MAX as int,
        STAGE_MAX as int,
    ) as i64;
    let ts_a = tanh_of(fmul(s0 as int, THERMAL as int)) as i64;
    let s1 = spec_clamp(
        delay[1] + fmul(tune, ts_a - stage_tanh[1]) as int,
        -STAGE_MAX as int,
        STAGE_MAX as int,
    ) as i64;
    let ts_b = tanh_of(fmul(s1 as int, THERMAL as int)) as i64;
    let s2 = spec_clamp(
        delay[2] + fmul(tune, ts_b - stage_tanh[2]) as int,
        -STAGE_MAX as int,
        STAGE_MAX as int,
    ) as i64;
    let ts_c = tanh_of(fmul(s2 as int, THERMAL as int)) as i64;
    let other3 = tanh_of(fmul(delay[3] as int, THERMAL as int));
    let s3 = spec_clamp(
        delay[3] + fmul(tune, ts_c - other3),
        -STAGE_MAX as int,
        STAGE_MAX as int,
    ) as i64;
    let avg = tdiv(s3 + delay[4], 2) as i64;
    (
        seq![s0, s1, s2, s3],
        seq![ts_a, ts_b, ts_c],
        seq![s0, s1, s2, s3, s3, avg],
    )
}

/// The ladder filter of one channel.
pub struct HuovilainenMoog {
    /// The four stage outputs.
    pub stage: Vec<i64>,
    /// Cached nonlinearity outputs of the first three stages.
    pub stage_tanh: Vec<i64>,
    /// The delay line, whose last element is the output.
    pub delay: Vec<i64>,
    /// Tuning gain, valid for the cached parameters.
    pub tune: i64,
    /// Asymmetry-correction gain, valid for the cached parameters.
    pub acr: i64,
    /// Resonance feedback gain, valid for the cached parameters.
    pub res_quad: i64,
    /// The cutoff the cached coefficients were derived from.
    pub coeff_cutoff: i64,
    /// The resonance the cached coefficients were derived from.
    pub coeff_resonance: i64,
    /// The sample rate the cached coefficients were derived from.
    pub coeff_sample_rate: i64,
}

impl HuovilainenMoog {
    /// A filter at rest: every stage, cached nonlinearity and delay value
    /// is exactly zero.
    pub open spec fn quiescent(self) -> bool {
        &&& forall|i: int| 0 <= i < 4 ==> #[trigger] self.stage[i] == 0
        &&& forall|i: int| 0 <= i < 3 ==> #[trigger] self.stage_tanh[i] == 0
        &&& forall|i: int| 0 <= i < 6 ==> #[trigger] self.delay[i] == 0
    }

    /// Well-formedness: state bounded by the saturation headroom, and the
    /// cached gains exactly the values their formulas assign to the cached
    /// `(cutoff, resonance, sample rate)` triple.
    pub open spec fn wf(self) -> bool {
        &&& self.stage.len() == 4
        &&& self.stage_tanh.len() == 3
        &&& self.delay.len() == 6
        &&& forall|i: int| 0 <= i < 4 ==> -STAGE_MAX <= #[trigger] self.stage[i] <= STAGE_MAX
        &&& forall|i: int| 0 <= i < 3 ==> -ONE <= #[trigger] self.stage_tanh[i] <= ONE
        &&& forall|i: int| 0 <= i < 6 ==> -STAGE_MAX <= #[trigger] self.delay[i] <= STAGE_MAX
        &&& 0 <= self.tune <= TUNE_MAX
        &&& self.tune == tune_of(self.coeff_cutoff as int, self.coeff_sample_rate as int)
        &&& -2 * ONE <= self.acr <= 2 * ONE
        &&& -8 * ONE <= self.res_quad <= 8 * ONE
        &&& ONE <= self.coeff_sample_rate <= 0x40000000000000
        &&& -0x40000000000000 <= self.coeff_cutoff <= 0x40000000000000
        &&& 0 <= self.coeff_resonance <= ONE
        &&& self.acr == acr_of(self.coeff_cutoff as int, self.coeff_sample_rate as int)
        &&& self.res_quad == res_quad_of(
            self.coeff_cutoff as int,
            self.coeff_resonance as int,
            self.coeff_sample_rate as int,
        )
    }

    pub fn new() -> (f: HuovilainenMoog)
        ensures
            f.wf(),
            f.quiescent(),
    {
        let mut stage: Vec<i64> = Vec::new();
        stage.push(0);
        stage.push(0);
        stage.push(0);
        stage.push(0);
        let mut stage_tanh: Vec<i64> = Vec::new();
        stage_tanh.push(0);
        stage_tanh.push(0);
        stage_tanh.push(0);
        let mut delay: Vec<i64> = Vec::new();
        delay.push(0);
        delay.push(0);
        delay.push(0);
        delay.push(0);
        delay.push(0);
        delay.push(0);
        proof {
            lemma_zero_cutoff_coeffs(ONE as int);
        }
        HuovilainenMoog {
            stage,
            stage_tanh,
            delay,
            tune: 0,
            acr: ACR0,
            res_quad: 0,
            coeff_cutoff: 0,
            coeff_resonance: 0,
            coeff_sample_rate: ONE,
        }
    }

    /// Derive and cache the tuning gains for `(cutoff, resonance)` at the
    /// given sample rate, unless they are already the cached pair.
    fn compute_coeffs(&mut self, cutoff: i64, resonance: i64, sample_rate: i64)
        requires
            old(self).wf(),
            -0x40000000000000 <= cutoff <= 0x40000000000000,
            0 <= resonance <= ONE,
            ONE <= sample_rate <= 0x40000000000000,
        ensures
            final(self).wf(),
            final(self).coeff_cutoff == cutoff,
            final(self).coeff_resonance == resonance,
            final(self).stage == old(self).stage,
            final(self).stage_tanh == old(self).stage_tanh,
            final(self).delay == old(self).delay,
            old(self).coeff_cutoff == cutoff && old(self).coeff_resonance == resonance
                ==> *final(self) == *old(self),
    {
        if self.coeff_cutoff == cutoff && self.coeff_resonance == resonance {
            return ;
        }
        let total_cutoff = clamp64(cutoff, 0, sample_rate / 2);
        let fc = fixdiv(total_cutoff, sample_rate);
        proof {
            assert(0 <= (total_cutoff as int) * one() / (sample_rate as int) <= one() / 2) by (
            nonlinear_arith)
                requires
                    0 <= total_cutoff <= sample_rate / 2,
                    one() <= sample_rate,
                    one() == 4294967296,
            ;
        }
        let f = fc / 2;
        let fc2 = fixmul(fc, fc);
        proof {
            assert(0 <= (fc as int) * (fc as int) <= (one() / 4) * one() && ((fc as int) * (
            fc as int)) / one() <= one() / 4) by (nonlinear_arith)
                requires
                    0 <= fc <= one() / 2,
                    one() == 4294967296,
            ;
        }
        let fc3 = fixmul(fc2, fc);
        proof {
            assert(0 <= (fc2 as int) * (fc as int) <= (one() / 8) * one() && ((fc2 as int) * (
            fc as int)) / one() <= one() / 8) by (nonlinear_arith)
                requires
                    0 <= fc <= one() / 2,
                    0 <= fc2 <= one() / 4,
                    one() == 4294967296,
            ;
        }
        let fcr = fixmul(FCR3, fc3) + fixmul(FCR2, fc2) - fixmul(FCR1, fc) + FCR0;
        let acr = ACR0 + fixmul(ACR1, fc) - fixmul(ACR2, fc2);
        proof {
            lemma_small_poly_terms(fc as int, fc2 as int, fc3 as int);
        }
        let w_raw = fixmul(fixmul(TWO_PI, f), fcr);
        proof {
            let wp = (TWO_PI as int) * (f as int);
            assert(0 <= wp <= 7 * one() * one()) by (nonlinear_arith)
                requires
                    wp == 26986075409 * (f as int),
                    0 <= f <= one() / 2,
                    one() == 4294967296,
            ;
            crate::fixed::lemma_tdiv_approx(wp);
            let wq = (fmul(TWO_PI as int, f as int)) * (fcr as int);
            assert(-(56 * one() * one()) <= wq <= 56 * one() * one()) by (nonlinear_arith)
                requires
                    wq == (fmul(26986075409, f as int)) * (fcr as int),
                    0 <= fmul(26986075409, f as int) <= 8 * one(),
                    -7 * one() <= fcr <= 7 * one(),
            ;
            crate::fixed::lemma_tdiv_approx(wq);
        }
        let w = clamp64(w_raw, 0, 32 * ONE);
        let e = exp_neg(w);
        self.tune = (ONE - e) * THERMAL_INV;
        self.acr = acr;
        let res4 = 4 * resonance;
        self.res_quad = fixmul(res4, acr);
        proof {
            let rq = (res4 as int) * (acr as int);
            assert(-(8 * one() * one()) <= rq <= 8 * one() * one()) by (nonlinear_arith)
                requires
                    rq == (res4 as int) * (acr as int),
                    0 <= res4 <= 4 * one(),
                    -2 * one() <= acr <= 2 * one(),
            ;
            crate::fixed::lemma_tdiv_approx(rq);
        }
        self.coeff_cutoff = cutoff;
        self.coeff_resonance = resonance;
        self.coeff_sample_rate = sample_rate;
    }

    /// Run one input sample through the 2x-oversampled ladder: exactly two
    /// applications of [`ladder_pass`] under the freshly keyed
    /// coefficients. The cached coefficients end up keyed to exactly
    /// `(cutoff, resonance)`, the state stays within the saturation
    /// headroom, and the output is the final element of the delay line.
    pub fn process(
        &mut self,
        in_sample: i64,
        sample_rate: i64,
        cutoff: i64,
        resonance: i64,
    ) -> (out: i64)
        requires
            old(self).wf(),
            -0x200000000000 <= in_sample <= 0x200000000000,
            -0x40000000000000 <= cutoff <= 0x40000000000000,
            0 <= resonance <= ONE,
            ONE <= sample_rate <= 0x40000000000000,
        ensures
            final(self).wf(),
            final(self).coeff_cutoff == cutoff,
            final(self).coeff_resonance == resonance,
            out == final(self).delay[5],
            -STAGE_MAX <= out <= STAGE_MAX,
            old(self).quiescent() && in_sample == 0 ==> final(self).quiescent() && out == 0,
            ({
                let p1 = ladder_pass(
                    old(self).stage_tanh@,
                    old(self).delay@,
                    in_sample as int,
                    final(self).tune as int,
                    final(self).res_quad as int,
                );
                let p2 = ladder_pass(
                    p1.1,
                    p1.2,
                    in_sample as int,
                    final(self).tune as int,
                    final(self).res_quad as int,
                );
                &&& final(self).stage@ == p2.0
                &&& final(self).stage_tanh@ == p2.1
                &&& final(self).delay@ == p2.2
            }),
    {
        self.compute_coeffs(cutoff, resonance, sample_rate);
        proof {
            if old(self).quiescent() && in_sample == 0 {
                assert forall|i: int| 0 <= i < 4 implies #[trigger] self.stage[i] == 0 by {
                    assert(self.stage[i] == old(self).stage[i]);
                }
                assert forall|i: int| 0 <= i < 3 implies #[trigger] self.stage_tanh[i] == 0 by {
                    assert(self.stage_tanh[i] == old(self).stage_tanh[i]);
                }
                assert forall|i: int| 0 <= i < 6 implies #[trigger] self.delay[i] == 0 by {
                    assert(self.delay[i] == old(self).delay[i]);
                }
            }
            assert(self.stage_tanh@ == old(self).stage_tanh@);
            assert(self.delay@ == old(self).delay@);
        }
        self.run_pass(in_sample);
        self.run_pass(in_sample);
        self.delay[5]
    }

    /// One oversampled pass: exactly [`ladder_pass`] on the filter state,
    /// with the cached coefficients untouched.
    #[verifier::rlimit(100)]
    #[verifier::spinoff_prover]
    fn run_pass(&mut self, in_sample: i64)
        requires
            old(self).stage.len() == 4,
            old(self).stage_tanh.len() == 3,
            old(self).delay.len() == 6,
            forall|i: int|
                0 <= i < 4 ==> -STAGE_MAX <= #[trigger] old(self).stage[i] <= STAGE_MAX,
            forall|i: int| 0 <= i < 3 ==> -ONE <= #[trigger] old(self).stage_tanh[i] <= ONE,
            forall|i: int|
                0 <= i < 6 ==> -STAGE_MAX <= #[trigger] old(self).delay[i] <= STAGE_MAX,
            0 <= old(self).tune <= TUNE_MAX,
            -8 * ONE <= old(self).res_quad <= 8 * ONE,
            -0x200000000000 <= in_sample <= 0x200000000000,
        ensures
            final(self).stage.len() == 4,
            final(self).stage_tanh.len() == 3,
            final(self).delay.len() == 6,
            forall|i: int|
                0 <= i < 4 ==> -STAGE_MAX <= #[trigger] final(self).stage[i] <= STAGE_MAX,
            forall|i: int| 0 <= i < 3 ==> -ONE <= #[trigger] final(self).stage_tanh[i] <= ONE,
            forall|i: int|
                0 <= i < 6 ==> -STAGE_MAX <= #[trigger] final(self).delay[i] <= STAGE_MAX,
            *final(self) == (HuovilainenMoog {
                stage: final(self).stage,
                stage_tanh: final(self).stage_tanh,
                delay: final(self).delay,
                ..*old(self)
            }),
            ({
                let p = ladder_pass(
                    old(self).stage_tanh@,
                    old(self).delay@,
                    in_sample as int,
                    old(self).tune as int,
                    old(self).res_quad as int,
                );
                &&& final(self).stage@ == p.0
                &&& final(self).stage_tanh@ == p.1
                &&& final(self).delay@ == p.2
            }),
            old(self).quiescent() && in_sample == 0 ==> final(self).quiescent(),
    {
        let fb = fixmul_wide(self.delay[5], self.res_quad);
        proof {
            let fp = (self.delay[5int] as int) * (self.res_quad as int);
            assert(-(512 * one() * one()) <= fp <= 512 * one() * one()) by (nonlinear_arith)
                requires
                    fp == (self.delay[5int] as int) * (self.res_quad as int),
                    -8 * one() <= self.res_quad <= 8 * one(),
                    -64 * one() <= self.delay[5int] <= 64 * one(),
            ;
            crate::fixed::lemma_tdiv_approx(fp);
            if old(self).quiescent() && in_sample == 0 {
                crate::fixed::lemma_fmul_zero(self.res_quad as int);
                assert(fb == 0);
            }
        }
        let input = in_sample - fb;
        let x_in = fixmul_wide(input, THERMAL);
        proof {
            let xp = (input as int) * (THERMAL as int);
            assert(-(one() * one()) <= xp <= one() * one()) by (nonlinear_arith)
                requires
                    xp == (input as int) * 107374,
                    -0x202000000000int - 513 * 4294967296int <= input <= 0x202000000000int + 513
                        * 4294967296int,
                    one() == 4294967296,
            ;
            crate::fixed::lemma_tdiv_approx(xp);
            if old(self).quiescent() && in_sample == 0 {
                crate::fixed::lemma_fmul_zero(THERMAL as int);
                assert(x_in == 0);
            }
        }
        let t_in = tanh_fixed(x_in);
        let drive0 = self.tune_scaled(t_in, self.stage_tanh[0]);
        let s0 = clamp64(self.delay[0] + drive0, -STAGE_MAX, STAGE_MAX);
        self.stage.set(0, s0);
        self.delay.set(0, s0);
        let xs0 = fixmul_wide(s0, THERMAL);
        proof {
            lemma_thermal_product(s0 as int);
            if old(self).quiescent() && in_sample == 0 {
                crate::fixed::lemma_fmul_zero(THERMAL as int);
                assert(xs0 == 0);
            }
        }
        let ts_a = tanh_fixed(xs0);
        self.stage_tanh.set(0, ts_a);
        let drive1 = self.tune_scaled(ts_a, self.stage_tanh[1]);
        let s1 = clamp64(self.delay[1] + drive1, -STAGE_MAX, STAGE_MAX);
        self.stage.set(1, s1);
        self.delay.set(1, s1);
        let xs1 = fixmul_wide(s1, THERMAL);
        proof {
            lemma_thermal_product(s1 as int);
            if old(self).quiescent() && in_sample == 0 {
                crate::fixed::lemma_fmul_zero(THERMAL as int);
                assert(xs1 == 0);
            }
        }
        let ts_b = tanh_fixed(xs1);
        self.stage_tanh.set(1, ts_b);
        let drive2 = self.tune_scaled(ts_b, self.stage_tanh[2]);
        let s2 = clamp64(self.delay[2] + drive2, -STAGE_MAX, STAGE_MAX);
        self.stage.set(2, s2);
        self.delay.set(2, s2);
        let xs2 = fixmul_wide(s2, THERMAL);
        proof {
            lemma_thermal_product(s2 as int);
            if old(self).quiescent() && in_sample == 0 {
                crate::fixed::lemma_fmul_zero(THERMAL as int);
                assert(xs2 == 0);
            }
        }
        let ts_c = tanh_fixed(xs2);
        self.stage_tanh.set(2, ts_c);
        let xd = fixmul_wide(self.delay[3], THERMAL);
        proof {
            lemma_thermal_product(self.delay[3] as int);
            if old(self).quiescent() && in_sample == 0 {
                crate::fixed::lemma_fmul_zero(THERMAL as int);
                assert(xd == 0);
            }
        }
        let other3 = tanh_fixed(xd);
        let drive3 = self.tune_scaled(ts_c, other3);
        let s3 = clamp64(self.delay[3] + drive3, -STAGE_MAX, STAGE_MAX);
        self.stage.set(3, s3);
        self.delay.set(3, s3);
        let sum = s3 + self.delay[4];
        let avg: i64 = if sum >= 0 {
            sum / 2
        } else {
            -((-sum) / 2)
        };
        self.delay.set(5, avg);
        self.delay.set(4, s3);
        proof {
            reveal(ladder_pass);
            assert(self.stage@ =~= seq![s0, s1, s2, s3]);
            assert(self.stage_tanh@ =~= seq![ts_a, ts_b, ts_c]);
            assert(self.delay@ =~= seq![s0, s1, s2, s3, s3, avg]);
        }
    }

    /// `tune * (a - b)` for two tanh-range values    /// `tune * (a - b)` for two tanh-range values: the per-stage drive,
    /// bounded by `2 * TUNE_MAX` before saturation.
    fn tune_scaled(&self, a: i64, b: i64) -> (r: i64)
        requires
            0 <= self.tune <= TUNE_MAX,
            -ONE <= a <= ONE,
            -ONE <= b <= ONE,
        ensures
            r == fmul(self.tune as int, a - b),
            -0x30000 * (ONE as int) <= r <= 0x30000 * (ONE as int),
            a == b ==> r == 0,
    {
        let d = a - b;
        let r = fixmul_wide(self.tune, d);
        proof {
            assert(d == 0 ==> (self.tune as int) * (d as int) == 0) by (nonlinear_arith);
            let p = (self.tune as int) * (d as int);
            assert(-(0x30000 * one() * one()) <= p <= 0x30000 * one() * one()) by (
            nonlinear_arith)
                requires
                    p == (self.tune as int) * (d as int),
                    0 <= self.tune <= 40000 * one(),
                    -2 * one() <= d <= 2 * one(),
            ;
            crate::fixed::lemma_tdiv_approx(p);
        }
        r
    }
}

impl Filter for HuovilainenMoog {
    open spec fn inv(&self) -> bool {
        self.wf()
    }

    fn process(&mut self, in_sample: i64, sample_rate: i64, cutoff: i64, resonance: i64) -> (out:
        i64) {
        HuovilainenMoog::process(self, in_sample, sample_rate, cutoff, resonance)
    }
}

/// Bounds of the polynomial fit terms over the normalised cutoff range
/// `[0, 1/2]`: each scaled product stays within one unit.
proof fn lemma_small_poly_terms(fc: int, fc2: int, fc3: int)
    requires
        0 <= fc <= one() / 2,
        fc2 == fmul(fc, fc),
        fc3 == fmul(fc2, fc),
    ensures
        0 <= fc2 <= one() / 4,
        0 <= fc3 <= one() / 8,
        0 <= fmul(FCR3 as int, fc3) <= one(),
        0 <= fmul(FCR2 as int, fc2) <= one(),
        0 <= fmul(FCR1 as int, fc) <= one(),
        0 <= fmul(ACR1 as int, fc) <= one(),
        0 <= fmul(ACR2 as int, fc2) <= one(),
{
    assert(0 <= fc * fc <= (one() / 4) * one() && (fc * fc) / one() <= one() / 4) by (
    nonlinear_arith)
        requires
            0 <= fc <= one() / 2,
            one() == 4294967296,
    ;
    assert(0 <= fc2 * fc <= (one() / 8) * one() && (fc2 * fc) / one() <= one() / 8) by (
    nonlinear_arith)
        requires
            0 <= fc <= one() / 2,
            0 <= fc2 <= one() / 4,
            one() == 4294967296,
    ;
    assert(0 <= 8044473745 * fc3 <= one() * one() && (8044473745 * fc3) / one() <= one()) by (
    nonlinear_arith)
        requires
            0 <= fc3 <= one() / 8,
            one() == 4294967296,
    ;
    assert(0 <= 2128156295 * fc2 <= one() * one() && (2128156295 * fc2) / one() <= one()) by (
    nonlinear_arith)
        requires
            0 <= fc2 <= one() / 4,
            one() == 4294967296,
    ;
    assert(0 <= 2787433775 * fc <= one() * one() && (2787433775 * fc) / one() <= one()) by (
    nonlinear_arith)
        requires
            0 <= fc <= one() / 2,
            one() == 4294967296,
    ;
    assert(0 <= 7906605295 * fc <= one() * one() && (7906605295 * fc) / one() <= one()) by (
    nonlinear_arith)
        requires
            0 <= fc <= one() / 2,
            one() == 4294967296,
    ;
    assert(0 <= 16906709264 * fc2 <= one() * one() && (16906709264 * fc2) / one() <= one()) by (
    nonlinear_arith)
        requires
            0 <= fc2 <= one() / 4,
            one() == 4294967296,
    ;
}

/// At a zero cutoff the asymmetry gain is exactly `ACR0` and the feedback
/// gain is zero: a fresh filter's cache is coherent.
pub proof fn lemma_zero_cutoff_coeffs(sample_rate: int)
    requires
        one() <= sample_rate,
    ensures
        acr_of(0, sample_rate) == ACR0,
        res_quad_of(0, 0, sample_rate) == 0,
        tune_of(0, sample_rate) == 0,
{
    crate::fixed::lemma_fmul_zero(FCR3 as int);
    crate::fixed::lemma_fmul_zero(FCR2 as int);
    crate::fixed::lemma_fmul_zero(FCR1 as int);
    crate::fixed::lemma_fmul_zero(crate::fixed::LOG2_E as int);
    assert(fmul(fmul(TWO_PI as int, 0), FCR0 as int) == 0) by {
        crate::fixed::lemma_fmul_zero(TWO_PI as int);
        crate::fixed::lemma_fmul_zero(FCR0 as int);
    }
    assert(spec_clamp(0, 0, 32 * one()) == 0);
    assert(exp_neg_of(0) == one()) by {
        crate::fixed::lemma_fmul_zero(crate::fixed::LOG2_E as int);
        assert(0int / one() == 0 && 0int % one() == 0) by (nonlinear_arith);
    }
    assert(sample_rate / 2 >= 0) by (nonlinear_arith)
        requires
            0 < sample_rate,
    ;
    assert(spec_clamp(0, 0, sample_rate / 2) == 0);
    assert(0 * one() == 0) by (nonlinear_arith);
    assert(0int / sample_rate == 0) by (nonlinear_arith)
        requires
            0 < sample_rate,
    ;
    assert(fc_of(0, sample_rate) == 0);
    assert(fmul(ACR1 as int, 0) == 0 && fmul(0, 0) == 0 && fmul(ACR2 as int, 0) == 0 && fmul(
        0,
        ACR0 as int,
    ) == 0);
}

/// Law: at zero resonance the feedback path vanishes, whatever the cutoff
/// and sample rate: the ladder degenerates to the plain four-pole cascade.
pub proof fn lemma_zero_resonance(cutoff: int, sample_rate: int)
    ensures
        res_quad_of(cutoff, 0, sample_rate) == 0,
{
    assert(4 * 0 == 0);
    assert(fmul(0, acr_of(cutoff, sample_rate)) == 0);
}

} // verus!
