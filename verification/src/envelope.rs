//! Exponential ADSR envelope generator.
//!
//! The envelope is a five-state machine. In each active stage the level
//! follows `level' = base + level * coeff`, where `(base, coeff)` are derived
//! from the stage's rate, the sample rate and a fixed overshoot ratio
//! (`RATIO_A` for attack, `RATIO_DR` for decay and release). Reaching the
//! stage target snaps the level exactly to it and advances the state.
//!
//! `process` is specified exactly by [`env_step`]; the monotonicity laws at
//! the bottom of this file are proved for every well-formed envelope.

use vstd::prelude::*;

use crate::fixed::{exp_neg, exp_neg_of, fdiv, fixdiv, fixmul, fixmul_wide, fmul, one,
    COEFF_GAP, ONE};

verus! {

/// Attack overshoot ratio: 0.1 in Q32.32.
pub const RATIO_A: i64 = 429496730;

/// Decay/release overshoot ratio: 0.001 in Q32.32.
pub const RATIO_DR: i64 = 4294967;

/// ln(11) in Q32.32: the attack stage's exponent constant,
/// `ln((1 + RATIO_A) / RATIO_A)`.
pub const LN_RATIO_A: i64 = 10298881776;

/// ln(1001) in Q32.32: the decay/release exponent constant,
/// `ln((1 + RATIO_DR) / RATIO_DR)`.
pub const LN_RATIO_DR: i64 = 29672875833;

/// One stage's coefficient as the fixed-point pipeline defines it:
/// `exp(-k / rate_samples)`, zero when the rate is not positive, capped
/// `COEFF_GAP` below `ONE`.
pub open spec fn coeff_of(rate_samples: int, k: int) -> int {
    if rate_samples <= 0 {
        0
    } else {
        let x = if rate_samples * 32 < k {
            32 * one()
        } else {
            fdiv(k, rate_samples)
        };
        let raw = exp_neg_of(x);
        if raw > one() - COEFF_GAP {
            one() - COEFF_GAP
        } else {
            raw
        }
    }
}

/// One stage's coefficient: `exp(-k / rate_samples)`, zero when the rate is
/// not positive (an instantaneous stage), never closer to `ONE` than
/// `COEFF_GAP`: exactly [`coeff_of`].
pub fn calc_coeff(rate_samples: i64, k: i64) -> (c: i64)
    requires
        0 < k <= 32 * ONE,
    ensures
        c == coeff_of(rate_samples as int, k as int),
        0 <= c <= ONE - COEFF_GAP,
        rate_samples <= 0 ==> c == 0,
{
    if rate_samples <= 0 {
        0
    } else {
        let x: i64 = if (rate_samples as i128) * 32 < (k as i128) {
            32 * ONE
        } else {
            proof {
                assert(k as int <= (rate_samples as int) * 0x40000000 && (k as int) * one() / (
                rate_samples as int) <= 32 * one()) by (nonlinear_arith)
                    requires
                        0 < k <= 32 * one(),
                        0 < rate_samples,
                        (rate_samples as int) * 32 >= k as int,
                        one() == 4294967296,
                ;
            }
            fixdiv(k, rate_samples)
        };
        let raw = exp_neg(x);
        if raw > ONE - COEFF_GAP {
            ONE - COEFF_GAP
        } else {
            raw
        }
    }
}

/// The five envelope states.
#[derive(Clone, Copy, Debug, PartialEq, Eq, Structural)]
pub enum State {
    Idle,
    Attacking,
    Decaying,
    Sustaining,
    Releasing,
}

/// The four ADSR parameters: stage rates in seconds and the sustain level,
/// all in Q32.32.
#[derive(Clone, Copy, Debug, PartialEq, Eq, Structural)]
pub struct Adsr {
    pub attack_rate: i64,
    pub decay_rate: i64,
    pub sustain_level: i64,
    pub release_rate: i64,
}

/// The envelope generator of one voice.
pub struct AdsrEnvelope {
    pub voice_id: i32,
    pub state: State,
    /// Current output level in `[0, ONE]`.
    pub level: i64,
    /// Timestamp of the latest gate-on; cleared when the envelope returns to
    /// `Idle`.
    pub gate_time: Option<u64>,
    pub params: Adsr,
    pub attack_coeff: i64,
    pub decay_coeff: i64,
    pub release_coeff: i64,
    pub attack_base: i64,
    pub decay_base: i64,
    pub release_base: i64,
}

impl AdsrEnvelope {
    /// Well-formedness: level in range, coefficients bounded away from
    /// `ONE`, and each base the exact derived value for its stage.
    pub open spec fn wf(self) -> bool {
        &&& 0 <= self.level <= ONE
        &&& 0 <= self.params.sustain_level <= ONE
        &&& 0 <= self.attack_coeff <= ONE - COEFF_GAP
        &&& 0 <= self.decay_coeff <= ONE - COEFF_GAP
        &&& 0 <= self.release_coeff <= ONE - COEFF_GAP
        &&& self.attack_base == fmul(one() + RATIO_A, one() - self.attack_coeff)
        &&& self.decay_base == fmul(
            self.params.sustain_level - RATIO_DR,
            one() - self.decay_coeff,
        )
        &&& self.release_base == -fmul(RATIO_DR as int, one() - self.release_coeff)
        &&& self.state is Idle ==> self.level == 0
    }

    pub fn new(voice_id: i32) -> (e: AdsrEnvelope)
        ensures
            e.wf(),
            e.state is Idle,
            e.level == 0,
            e.gate_time is None,
            e.voice_id == voice_id,
    {
        AdsrEnvelope {
            voice_id,
            state: State::Idle,
            level: 0,
            gate_time: None,
            params: Adsr { attack_rate: 0, decay_rate: 0, sustain_level: 0, release_rate: 0 },
            attack_coeff: 0,
            decay_coeff: 0,
            release_coeff: 0,
            attack_base: fixmul(ONE + RATIO_A, ONE),
            decay_base: fixmul(0 - RATIO_DR, ONE),
            release_base: 0 - fixmul(RATIO_DR, ONE),
        }
    }

    /// Derive and cache the per-stage `(base, coeff)` pairs from the rates
    /// in seconds, the sample rate, and the fixed overshoot ratios: exactly
    /// [`env_with_params`]. Neither the state nor the level moves.
    pub fn set_envelope_parameters(
        &mut self,
        sample_rate: i64,
        attack_rate_seconds: i64,
        decay_rate_seconds: i64,
        sustain_level: i64,
        release_rate_seconds: i64,
    )
        requires
            old(self).wf(),
            0 < sample_rate <= 0x40000000000000,
            -0x2000000000 <= attack_rate_seconds <= 0x2000000000,
            -0x2000000000 <= decay_rate_seconds <= 0x2000000000,
            -0x2000000000 <= release_rate_seconds <= 0x2000000000,
            0 <= sustain_level <= ONE,
        ensures
            final(self).wf(),
            final(self).state == old(self).state,
            final(self).level == old(self).level,
            final(self).gate_time == old(self).gate_time,
            final(self).voice_id == old(self).voice_id,
            final(self).params == (Adsr {
                attack_rate: attack_rate_seconds,
                decay_rate: decay_rate_seconds,
                sustain_level: sustain_level,
                release_rate: release_rate_seconds,
            }),
            *final(self) == env_with_params(
                *old(self),
                sample_rate as int,
                attack_rate_seconds as int,
                decay_rate_seconds as int,
                sustain_level as int,
                release_rate_seconds as int,
            ),
            attack_rate_seconds <= 0 ==> final(self).attack_coeff == 0,
    {
        self.params = Adsr {
            attack_rate: attack_rate_seconds,
            decay_rate: decay_rate_seconds,
            sustain_level,
            release_rate: release_rate_seconds,
        };
        let attack_samples = fixmul_wide(sample_rate, attack_rate_seconds);
        self.attack_coeff = calc_coeff(attack_samples, LN_RATIO_A);
        self.attack_base = fixmul(ONE + RATIO_A, ONE - self.attack_coeff);

        let decay_samples = fixmul_wide(sample_rate, decay_rate_seconds);
        self.decay_coeff = calc_coeff(decay_samples, LN_RATIO_DR);
        self.decay_base = fixmul(self.params.sustain_level - RATIO_DR, ONE - self.decay_coeff);

        let release_samples = fixmul_wide(sample_rate, release_rate_seconds);
        self.release_coeff = calc_coeff(release_samples, LN_RATIO_DR);
        self.release_base = 0 - fixmul(RATIO_DR, ONE - self.release_coeff);
        proof {
            assert(attack_rate_seconds <= 0 ==> fmul(sample_rate as int, attack_rate_seconds as int)
                <= 0) by (nonlinear_arith)
                requires
                    0 < sample_rate,
            ;
        }
    }

    /// A gate-on: record the time and enter the attack stage from any
    /// state. The level is left where it is, so a retriggered note rises
    /// from its current value.
    pub fn gate_on(&mut self, time: u64)
        requires
            old(self).wf(),
        ensures
            final(self).wf(),
            *final(self) == (AdsrEnvelope {
                state: State::Attacking,
                gate_time: Some(time),
                ..*old(self)
            }),
    {
        self.gate_time = Some(time);
        self.state = State::Attacking;
    }

    /// A gate-off: any of the three held stages moves to `Releasing`;
    /// `Idle` and `Releasing` are unchanged.
    pub fn gate_off(&mut self)
        requires
            old(self).wf(),
        ensures
            final(self).wf(),
            *final(self) == (AdsrEnvelope {
                state: if old(self).state is Attacking || old(self).state is Decaying || old(
                    self,
                ).state is Sustaining {
                    State::Releasing
                } else {
                    old(self).state
                },
                ..*old(self)
            }),
    {
        match self.state {
            State::Attacking | State::Sustaining | State::Decaying => {
                self.state = State::Releasing;
            },
            _ => (),
        }
    }

    pub fn is_idle(&self) -> (r: bool)
        ensures
            r == (self.state is Idle),
    {
        self.state == State::Idle
    }

    pub fn is_decaying(&self) -> (r: bool)
        ensures
            r == (self.state is Decaying),
    {
        self.state == State::Decaying
    }

    /// Advance one sample and return the new level.
    pub fn next(&mut self) -> (level: i64)
        requires
            old(self).wf(),
        ensures
            final(self).wf(),
            *final(self) == env_step(*old(self)),
            level == final(self).level,
    {
        self.process();
        self.level
    }

    /// Advance the envelope by one sample: exactly [`env_step`].
    pub fn process(&mut self)
        requires
            old(self).wf(),
        ensures
            final(self).wf(),
            *final(self) == env_step(*old(self)),
    {
        proof {
            lemma_env_step_wf(*old(self));
        }
        match self.state {
            State::Attacking => {
                proof {
                    lemma_attack_raw_bounds(*old(self));
                }
                self.level = self.attack_base + fixmul(self.level, self.attack_coeff);
                if self.level >= ONE {
                    self.level = ONE;
                    self.state = State::Decaying;
                }
            },
            State::Decaying => {
                proof {
                    lemma_decay_raw_bounds(*old(self));
                }
                self.level = self.decay_base + fixmul(self.level, self.decay_coeff);
                if self.level <= self.params.sustain_level {
                    self.level = self.params.sustain_level;
                    self.state = State::Sustaining;
                }
            },
            State::Releasing => {
                proof {
                    lemma_release_raw_bounds(*old(self));
                }
                self.level = self.release_base + fixmul(self.level, self.release_coeff);
                if self.level <= 0 {
                    self.level = 0;
                    self.state = State::Idle;
                    self.gate_time = None;
                }
            },
            _ => (),
        }
    }
}

/// An envelope after a parameter recompute: the stored parameters and the
/// derived `(base, coeff)` pair of every stage; state, level and gate-on
/// time are untouched.
pub open spec fn env_with_params(
    e: AdsrEnvelope,
    sample_rate: int,
    attack: int,
    decay: int,
    sustain: int,
    release: int,
) -> AdsrEnvelope {
    let ac = coeff_of(fmul(sample_rate, attack), LN_RATIO_A as int);
    let dc = coeff_of(fmul(sample_rate, decay), LN_RATIO_DR as int);
    let rc = coeff_of(fmul(sample_rate, release), LN_RATIO_DR as int);
    AdsrEnvelope {
        params: Adsr {
            attack_rate: attack as i64,
            decay_rate: decay as i64,
            sustain_level: sustain as i64,
            release_rate: release as i64,
        },
        attack_coeff: ac as i64,
        attack_base: fmul(one() + RATIO_A, one() - ac) as i64,
        decay_coeff: dc as i64,
        decay_base: fmul(sustain - RATIO_DR, one() - dc) as i64,
        release_coeff: rc as i64,
        release_base: (-fmul(RATIO_DR as int, one() - rc)) as i64,
        ..e
    }
}

/// The raw (pre-snap) level an active stage computes from the current level.
pub open spec fn stage_raw(level: int, base: int, coeff: int) -> int {
    base + fmul(level, coeff)
}

/// One sample of envelope evolution: the exact model of
/// [`AdsrEnvelope::process`].
pub open spec fn env_step(e: AdsrEnvelope) -> AdsrEnvelope {
    match e.state {
        State::Attacking => {
            let raw = stage_raw(e.level as int, e.attack_base as int, e.attack_coeff as int);
            if raw >= one() {
                AdsrEnvelope { level: ONE, state: State::Decaying, ..e }
            } else {
                AdsrEnvelope { level: raw as i64, ..e }
            }
        },
        State::Decaying => {
            let raw = stage_raw(e.level as int, e.decay_base as int, e.decay_coeff as int);
            if raw <= e.params.sustain_level {
                AdsrEnvelope { level: e.params.sustain_level, state: State::Sustaining, ..e }
            } else {
                AdsrEnvelope { level: raw as i64, ..e }
            }
        },
        State::Releasing => {
            let raw = stage_raw(e.level as int, e.release_base as int, e.release_coeff as int);
            if raw <= 0 {
                AdsrEnvelope { level: 0, state: State::Idle, gate_time: None, ..e }
            } else {
                AdsrEnvelope { level: raw as i64, ..e }
            }
        },
        _ => e,
    }
}


/// `n` samples of envelope evolution.
pub open spec fn env_steps(e: AdsrEnvelope, n: nat) -> AdsrEnvelope
    decreases n,
{
    if n == 0 {
        e
    } else {
        env_steps(env_step(e), (n - 1) as nat)
    }
}

/// Stepping once more at the end is stepping once more at the front.
pub proof fn lemma_env_steps_snoc(e: AdsrEnvelope, n: nat)
    ensures
        env_steps(e, n + 1) == env_step(env_steps(e, n)),
    decreases n,
{
    assert((n + 1 - 1) as nat == n);
    assert(env_steps(e, n + 1) == env_steps(env_step(e), n));
    if n > 0 {
        lemma_env_steps_snoc(env_step(e), (n - 1) as nat);
        assert(env_steps(e, n) == env_steps(env_step(e), (n - 1) as nat));
    }
}

/// Bounds on the raw attack level: it strictly exceeds the current level
/// and stays within `4 * ONE`, for every well-formed envelope.
proof fn lemma_attack_raw_bounds(e: AdsrEnvelope)
    requires
        e.wf(),
    ensures
        e.level < stage_raw(e.level as int, e.attack_base as int, e.attack_coeff as int) <= 4
            * one(),
{
    let ca = e.attack_coeff as int;
    let lv = e.level as int;
    let pa = (one() + RATIO_A) * (one() - ca);
    let pl = lv * ca;
    let gap = (one() - ca) * (one() + RATIO_A - lv);
    crate::fixed::lemma_tdiv_approx(pa);
    crate::fixed::lemma_tdiv_approx(pl);
    assert(pa >= 0 && pl >= 0 && pa + pl == one() * lv + gap) by (nonlinear_arith)
        requires
            pa == (one() + RATIO_A) * (one() - ca),
            pl == lv * ca,
            gap == (one() - ca) * (one() + RATIO_A - lv),
            0 <= lv <= one(),
            0 <= ca <= one() - COEFF_GAP,
            RATIO_A == 429496730,
            COEFF_GAP == 8192,
            one() == 4294967296,
    ;
    assert(COEFF_GAP * (RATIO_A as int) <= gap <= 2 * one() * one()) by (nonlinear_arith)
        requires
            gap == (one() - ca) * (one() + RATIO_A - lv),
            0 <= lv <= one(),
            0 <= ca <= one() - COEFF_GAP,
            RATIO_A == 429496730,
            COEFF_GAP == 8192,
            one() == 4294967296,
    ;
}

/// Bounds on the raw decay level: always within `[-ONE, ONE)`, and strictly
/// below the current level whenever that level is at or above the sustain
/// level.
proof fn lemma_decay_raw_bounds(e: AdsrEnvelope)
    requires
        e.wf(),
    ensures
        -one() <= stage_raw(e.level as int, e.decay_base as int, e.decay_coeff as int) < one(),
        e.level >= e.params.sustain_level ==> stage_raw(
            e.level as int,
            e.decay_base as int,
            e.decay_coeff as int,
        ) < e.level,
{
    let cd = e.decay_coeff as int;
    let lv = e.level as int;
    let su = e.params.sustain_level as int;
    let pd = (su - RATIO_DR) * (one() - cd);
    let pl = lv * cd;
    let gap = (su - RATIO_DR - lv) * (one() - cd);
    crate::fixed::lemma_tdiv_approx(pd);
    crate::fixed::lemma_tdiv_approx(pl);
    assert(pd + pl == one() * lv + gap && 0 <= pl && pd >= -((RATIO_DR as int) * one()) && pd + pl
        <= one() * one() - COEFF_GAP * (RATIO_DR as int)) by (nonlinear_arith)
        requires
            pd == (su - RATIO_DR) * (one() - cd),
            pl == lv * cd,
            gap == (su - RATIO_DR - lv) * (one() - cd),
            0 <= lv <= one(),
            0 <= su <= one(),
            0 <= cd <= one() - COEFF_GAP,
            RATIO_DR == 4294967,
            COEFF_GAP == 8192,
            one() == 4294967296,
    ;
    assert(lv >= su ==> gap <= -(COEFF_GAP * (RATIO_DR as int))) by (nonlinear_arith)
        requires
            gap == (su - RATIO_DR - lv) * (one() - cd),
            0 <= lv <= one(),
            0 <= su <= one(),
            0 <= cd <= one() - COEFF_GAP,
            RATIO_DR == 4294967,
            COEFF_GAP == 8192,
            one() == 4294967296,
    ;
}

/// Bounds on the raw release level: always within `[-ONE, ONE)` and
/// strictly below the current level.
proof fn lemma_release_raw_bounds(e: AdsrEnvelope)
    requires
        e.wf(),
    ensures
        -one() <= stage_raw(e.level as int, e.release_base as int, e.release_coeff as int)
            < e.level,
{
    let cr = e.release_coeff as int;
    let lv = e.level as int;
    let pr = (RATIO_DR as int) * (one() - cr);
    let pl = lv * cr;
    let gap = (RATIO_DR as int + lv) * (one() - cr);
    crate::fixed::lemma_tdiv_approx(-pr);
    crate::fixed::lemma_tdiv_approx(pl);
    assert(-pr + pl == one() * lv - gap && 0 <= pl && 0 <= pr <= (RATIO_DR as int) * one() && gap
        >= COEFF_GAP * (RATIO_DR as int)) by (nonlinear_arith)
        requires
            pr == (RATIO_DR as int) * (one() - cr),
            pl == lv * cr,
            gap == (RATIO_DR as int + lv) * (one() - cr),
            0 <= lv <= one(),
            0 <= cr <= one() - COEFF_GAP,
            RATIO_DR == 4294967,
            COEFF_GAP == 8192,
            one() == 4294967296,
    ;
}

/// One envelope step preserves well-formedness.
pub proof fn lemma_env_step_wf(e: AdsrEnvelope)
    requires
        e.wf(),
    ensures
        env_step(e).wf(),
{
    match e.state {
        State::Attacking => {
            lemma_attack_raw_bounds(e);
        },
        State::Decaying => {
            lemma_decay_raw_bounds(e);
        },
        State::Releasing => {
            lemma_release_raw_bounds(e);
        },
        _ => {},
    }
}


/// Law: over any number of samples, while the envelope is still in its
/// attack stage the level has never dropped below where it started: the
/// attack drives the level monotonically upward for as long as it lasts.
pub proof fn lemma_attack_phase_monotone(e: AdsrEnvelope, n: nat)
    requires
        e.wf(),
        e.state is Attacking,
    ensures
        env_steps(e, n).wf(),
        env_steps(e, n).state is Attacking ==> env_steps(e, n).level >= e.level,
    decreases n,
{
    if n == 0 {
    } else {
        lemma_attack_phase_monotone(e, (n - 1) as nat);
        lemma_env_steps_snoc(e, (n - 1) as nat);
        let prev = env_steps(e, (n - 1) as nat);
        lemma_env_step_wf(prev);
        if env_steps(e, n).state is Attacking {
            assert(prev.state is Attacking);
            lemma_attack_monotone(prev);
        }
    }
}

/// Law: over any number of samples, while the envelope is still releasing
/// the level has never risen above where the release began: the release
/// drives the level monotonically downward until it snaps to 0.
pub proof fn lemma_release_phase_monotone(e: AdsrEnvelope, n: nat)
    requires
        e.wf(),
        e.state is Releasing,
    ensures
        env_steps(e, n).wf(),
        env_steps(e, n).state is Releasing ==> env_steps(e, n).level <= e.level,
        env_steps(e, n).state is Releasing || env_steps(e, n).state is Idle,
        env_steps(e, n).state is Idle ==> env_steps(e, n).level == 0,
    decreases n,
{
    if n == 0 {
    } else {
        lemma_release_phase_monotone(e, (n - 1) as nat);
        lemma_env_steps_snoc(e, (n - 1) as nat);
        let prev = env_steps(e, (n - 1) as nat);
        lemma_env_step_wf(prev);
        if prev.state is Releasing {
            lemma_release_monotone(prev);
        } else {
            lemma_idle_sustain_hold(prev);
        }
    }
}

/// Law: an idle envelope is absorbing: once the level has snapped to 0 it
/// remains exactly 0 for every later sample.
pub proof fn lemma_idle_absorbing(e: AdsrEnvelope, n: nat)
    requires
        e.wf(),
        e.state is Idle,
    ensures
        env_steps(e, n) == e,
    decreases n,
{
    if n > 0 {
        lemma_idle_sustain_hold(e);
        lemma_idle_absorbing(env_step(e), (n - 1) as nat);
    }
}

/// Law: from a gated-on envelope, the attack stage drives the level
/// monotonically upward (strictly, while it stays in Attacking), and the
/// state moves to Decaying exactly when the level first reaches `ONE`,
/// snapped exactly to `ONE` there.
pub proof fn lemma_attack_monotone(e: AdsrEnvelope)
    requires
        e.wf(),
        e.state is Attacking,
    ensures
        env_step(e).level >= e.level,
        env_step(e).state is Attacking || env_step(e).state is Decaying,
        env_step(e).state is Decaying ==> env_step(e).level == ONE,
        env_step(e).state is Attacking ==> env_step(e).level > e.level && env_step(e).level < ONE,
{
    lemma_attack_raw_bounds(e);
}

/// Law: in the decay stage the level decreases monotonically (strictly,
/// while it stays above the sustain level), and the state moves to
/// Sustaining exactly when the level first reaches the sustain level,
/// snapped exactly to it there.
pub proof fn lemma_decay_monotone(e: AdsrEnvelope)
    requires
        e.wf(),
        e.state is Decaying,
        e.level >= e.params.sustain_level,
    ensures
        env_step(e).level <= e.level,
        env_step(e).state is Decaying || env_step(e).state is Sustaining,
        env_step(e).state is Sustaining ==> env_step(e).level == e.params.sustain_level,
        env_step(e).state is Decaying ==> env_step(e).level < e.level && env_step(e).level
            > e.params.sustain_level,
{
    lemma_decay_raw_bounds(e);
}

/// Law: in the release stage the level is strictly decreasing until it
/// reaches 0, where it snaps exactly to 0, the state returns to Idle and
/// the stored gate-on time is dropped.
pub proof fn lemma_release_monotone(e: AdsrEnvelope)
    requires
        e.wf(),
        e.state is Releasing,
    ensures
        env_step(e).level <= e.level,
        env_step(e).state is Releasing || env_step(e).state is Idle,
        env_step(e).state is Idle ==> env_step(e).level == 0 && env_step(e).gate_time is None,
        env_step(e).state is Releasing ==> env_step(e).level < e.level && env_step(e).level > 0,
{
    lemma_release_raw_bounds(e);
}

/// Law: an idle envelope stays idle at level 0; a sustaining envelope holds
/// its level.
pub proof fn lemma_idle_sustain_hold(e: AdsrEnvelope)
    requires
        e.wf(),
        e.state is Idle || e.state is Sustaining,
    ensures
        env_step(e) == e,
        e.state is Idle ==> env_step(e).level == 0,
{
}

} // verus!
