//! Q32.32 signed fixed-point arithmetic: the numeric base of the synthesiser.
//!
//! A value `v: i64` stands for the real number `v / ONE`. All scaled products
//! and quotients round toward zero, which the spec functions below mirror
//! exactly, so every caller can reason about the arithmetic without slack.

use vstd::prelude::*;

verus! {

/// The fixed-point unit: 2^32.
pub const ONE: i64 = 4294967296;

/// `ONE` as a spec-level integer.
pub open spec fn one() -> int {
    4294967296
}

/// Truncating (toward zero) division of `a` by `b`, as exec `/` computes it
/// on signed machine integers.
pub open spec fn tdiv(a: int, b: int) -> int {
    if a >= 0 {
        a / b
    } else {
        -((-a) / b)
    }
}

/// The scaled product `(a * b) / ONE`, rounded toward zero.
pub open spec fn fmul(a: int, b: int) -> int {
    tdiv(a * b, one())
}

/// The scaled quotient `(a * ONE) / b`, rounded toward zero.
pub open spec fn fdiv(a: int, b: int) -> int {
    tdiv(a * one(), b)
}

/// Clamp `v` to `[lo, hi]`.
pub open spec fn spec_clamp(v: int, lo: int, hi: int) -> int {
    if v < lo {
        lo
    } else if v > hi {
        hi
    } else {
        v
    }
}

pub fn clamp64(v: i64, lo: i64, hi: i64) -> (r: i64)
    requires
        lo <= hi,
    ensures
        r == spec_clamp(v as int, lo as int, hi as int),
        lo <= r <= hi,
{
    if v < lo {
        lo
    } else if v > hi {
        hi
    } else {
        v
    }
}

proof fn lemma_abs_product_bound(a: int, b: int, ma: int, mb: int)
    requires
        -ma <= a <= ma,
        -mb <= b <= mb,
        0 <= ma,
        0 <= mb,
    ensures
        -(ma * mb) <= a * b <= ma * mb,
{
    assert(-(ma * mb) <= a * b <= ma * mb) by (nonlinear_arith)
        requires
            -ma <= a <= ma,
            -mb <= b <= mb,
            0 <= ma,
            0 <= mb,
    ;
}

proof fn lemma_tdiv_bounds(a: int, m: int)
    requires
        -m <= a <= m,
        0 <= m,
    ensures
        -tdiv(m, one()) <= tdiv(a, one()) <= tdiv(m, one()),
        tdiv(m, one()) <= m,
{
    assert(-(m / one()) <= tdiv(a, one()) <= m / one() && m / one() <= m) by (nonlinear_arith)
        requires
            -m <= a <= m,
            0 <= m,
    ;
}

/// `one() * tdiv(a, one())` differs from `a` by less than `one()`, on either
/// side of zero: the whole interface truncating division needs.
pub proof fn lemma_tdiv_approx(a: int)
    ensures
        a - (one() - 1) <= one() * tdiv(a, one()) <= a + (one() - 1),
        a >= 0 ==> one() * tdiv(a, one()) <= a,
        a <= 0 ==> one() * tdiv(a, one()) >= a,
        a >= 0 ==> tdiv(a, one()) >= 0,
        a <= 0 ==> tdiv(a, one()) <= 0,
{
    if a >= 0 {
        assert(a == one() * (a / one()) + a % one() && 0 <= a % one() < one()) by (nonlinear_arith);
        assert(a / one() >= 0) by (nonlinear_arith)
            requires
                a >= 0,
        ;
    } else {
        let b = -a;
        assert(b == one() * (b / one()) + b % one() && 0 <= b % one() < one()) by (nonlinear_arith)
            requires
                b > 0,
        ;
        assert(b / one() >= 0) by (nonlinear_arith)
            requires
                b > 0,
        ;
    }
}

/// Scaled product of two values each at most 2^47 in magnitude
/// (2^15 in real units), the common case of the audio path.
pub fn fixmul(a: i64, b: i64) -> (r: i64)
    requires
        -0x800000000000 <= a <= 0x800000000000,
        -0x800000000000 <= b <= 0x800000000000,
    ensures
        r == fmul(a as int, b as int),
        -0x4000000000000000 <= r <= 0x4000000000000000,
{
    proof {
        lemma_abs_product_bound(a as int, b as int, 0x800000000000, 0x800000000000);
        lemma_tdiv_bounds((a as int) * (b as int), 0x800000000000int * 0x800000000000int);
    }
    let wide: i128 = (a as i128) * (b as i128);
    let q: i128 = if wide >= 0 {
        wide / (ONE as i128)
    } else {
        -((-wide) / (ONE as i128))
    };
    q as i64
}

/// Scaled product with an asymmetric range: one factor may be as large as
/// 2^54 (the top of the pitch table) while the other stays within 2^37.
pub fn fixmul_wide(a: i64, b: i64) -> (r: i64)
    requires
        -0x40000000000000 <= a <= 0x40000000000000,
        -0x2000000000 <= b <= 0x2000000000,
    ensures
        r == fmul(a as int, b as int),
        -0x4000000000000000 <= r <= 0x4000000000000000,
{
    proof {
        lemma_abs_product_bound(a as int, b as int, 0x40000000000000, 0x2000000000);
        lemma_tdiv_bounds((a as int) * (b as int), 0x40000000000000int * 0x2000000000int);
    }
    let wide: i128 = (a as i128) * (b as i128);
    let q: i128 = if wide >= 0 {
        wide / (ONE as i128)
    } else {
        -((-wide) / (ONE as i128))
    };
    q as i64
}

/// Scaled quotient `a / b` for non-negative `a` and positive `b`.
/// The bound `a <= b * 2^30` keeps the quotient within `i64`.
pub fn fixdiv(a: i64, b: i64) -> (r: i64)
    requires
        0 <= a,
        0 < b,
        a <= (b as int) * 0x40000000,
    ensures
        r == fdiv(a as int, b as int),
        0 <= r <= 0x4000000000000000,
        b >= one() ==> r <= a,
{
    proof {
        assert(0 <= (a as int) * one() / (b as int) <= 0x4000000000000000int)
            by (nonlinear_arith)
            requires
                0 <= a,
                0 < b,
                a <= (b as int) * 0x40000000,
        ;
        assert((b as int) >= one() ==> (a as int) * one() / (b as int) <= a as int)
            by (nonlinear_arith)
            requires
                0 <= a,
                0 < b,
        ;
    }
    let wide: i128 = (a as i128) * (ONE as i128);
    let q: i128 = wide / (b as i128);
    q as i64
}

/// A reusable magnitude bound for scaled products: if `|a| <= ba` and
/// `|b| <= bu * ONE`, then `|fmul(a, b)| <= bu * ba + 1`.
pub proof fn lemma_fmul_bound(a: int, b: int, ba: int, bu: int)
    requires
        -ba <= a <= ba,
        -bu * one() <= b <= bu * one(),
        0 <= ba,
        0 <= bu,
    ensures
        -(bu * ba) - 1 <= fmul(a, b) <= bu * ba + 1,
{
    let p = a * b;
    assert(-(ba * bu * one()) <= p <= ba * bu * one() && ba * bu * one() == one() * (bu * ba)) by (
    nonlinear_arith)
        requires
            p == a * b,
            -ba <= a <= ba,
            -bu * one() <= b <= bu * one(),
            0 <= ba,
            0 <= bu,
    ;
    lemma_tdiv_approx(p);
}

/// Scaled product of two unit-range factors: stays within the unit range.
pub fn mul_unit(a: i64, b: i64) -> (r: i64)
    requires
        0 <= a <= ONE,
        0 <= b <= ONE,
    ensures
        r == fmul(a as int, b as int),
        0 <= r <= ONE,
{
    proof {
        assert(0 <= (a as int) * (b as int) <= one() * one() && ((a as int) * (b as int)) / one()
            <= one()) by (nonlinear_arith)
            requires
                0 <= a <= one(),
                0 <= b <= one(),
                one() == 4294967296,
        ;
    }
    fixmul(a, b)
}

/// Truncating division is odd in its dividend.
pub proof fn lemma_tdiv_neg(p: int)
    ensures
        tdiv(-p, one()) == -tdiv(p, one()),
{
}

/// Multiplying by zero scales to zero.
pub proof fn lemma_fmul_zero(a: int)
    ensures
        fmul(a, 0) == 0,
        fmul(0, a) == 0,
{
    assert(a * 0 == 0 && 0 * a == 0) by (nonlinear_arith);
}

/// log2(e) in Q32.32.
pub const LOG2_E: i64 = 6196328019;

/// Stage coefficients stay at least this far below `ONE`, so each active
/// stage makes strictly positive progress per sample.
pub const COEFF_GAP: i64 = 8192;

/// `2^(2^-k)` in Q32.32 for `k = 1..=32`, the factor table of `exp2_frac`.
pub const EXP2_BIT: [i64; 32] = [
    6074001000, 5107605667, 4683695048, 4485121744, 4389014833, 4341736423, 4318288544,
    4306612134, 4300785774, 4297875550, 4296421177, 4295694175, 4295330720, 4295149004,
    4295058149, 4295012722, 4294990009, 4294978653, 4294972974, 4294970135, 4294968716,
    4294968006, 4294967651, 4294967473, 4294967385, 4294967340, 4294967318, 4294967307,
    4294967302, 4294967299, 4294967297, 4294967297,
];

/// The remaining binary-decomposition steps of the fractional exponential:
/// from bit `k` with remaining exponent `m`, current bit weight `half` and
/// accumulated product `r`.
pub open spec fn exp2_frac_rec(m: int, half: int, r: int, k: int) -> int
    decreases 32 - k,
{
    if k < 0 || k >= 32 {
        r
    } else {
        let take = half > 0 && m >= half;
        let m2 = if take {
            m - half
        } else {
            m
        };
        let r2 = if take {
            spec_clamp(fmul(r, EXP2_BIT[k] as int), one(), 2 * one())
        } else {
            r
        };
        exp2_frac_rec(m2, half / 2, r2, k + 1)
    }
}

/// `2^(f / ONE)` as the binary decomposition defines it.
pub open spec fn exp2_frac_of(f: int) -> int {
    exp2_frac_rec(f, one() / 2, one(), 0)
}

/// `2^(f / ONE)` for a fractional exponent `f`, by binary decomposition of
/// the exponent: exactly [`exp2_frac_of`]. The value stays within `[1, 2]`
/// and is exact at 0; finer accuracy against the real exponential is a
/// numeric property exercised by the test suite.
pub fn exp2_frac(f: i64) -> (r: i64)
    requires
        0 <= f < ONE,
    ensures
        r == exp2_frac_of(f as int),
        ONE <= r <= 2 * ONE,
        f == 0 ==> r == ONE,
{
    let mut r: i64 = ONE;
    let mut m: i64 = f;
    let mut half: i64 = ONE / 2;
    let mut k: usize = 0;
    while k < 32
        invariant
            k <= 32,
            0 <= m,
            0 <= half <= ONE / 2,
            ONE <= r <= 2 * ONE,
            f == 0 ==> m == 0 && r == ONE,
            exp2_frac_rec(m as int, half as int, r as int, k as int) == exp2_frac_of(f as int),
        decreases 32 - k,
    {
        if half > 0 && m >= half {
            m = m - half;
            let prod = fixmul(r, EXP2_BIT[k]);
            r = clamp64(prod, ONE, 2 * ONE);
        }
        half = half / 2;
        k = k + 1;
    }
    r
}

/// `v` halved (rounding toward zero) `n` times.
pub open spec fn halved(v: int, n: nat) -> int
    decreases n,
{
    if n == 0 {
        v
    } else {
        halved(v, (n - 1) as nat) / 2
    }
}

/// Halve `v` (rounding toward zero) `n` times: exactly [`halved`].
pub fn halve_n(v: i64, n: u32) -> (r: i64)
    requires
        0 <= v,
    ensures
        r == halved(v as int, n as nat),
        0 <= r <= v,
        n >= 1 ==> r <= v / 2,
{
    let mut r: i64 = v;
    let mut j: u32 = 0;
    while j < n
        invariant
            0 <= r <= v,
            j >= 1 ==> r <= v / 2,
            j <= n,
            r == halved(v as int, j as nat),
        decreases n - j,
    {
        r = r / 2;
        j = j + 1;
    }
    r
}

/// `exp(-x)` as the binary decomposition defines it: split the base-two
/// exponent `x * log2(e)` into whole and fractional parts and halve the
/// fractional exponential accordingly.
pub open spec fn exp_neg_of(x: int) -> int {
    let y = fmul(x, LOG2_E as int);
    let q = y / one();
    let f = y % one();
    if f == 0 {
        halved(one(), q as nat)
    } else {
        halved(exp2_frac_of(one() - f), (q + 1) as nat)
    }
}

/// `exp(-x)` for `x` in `[0, 32]` (Q32.32), via `2^(-x * log2(e))`:
/// exactly [`exp_neg_of`].
pub fn exp_neg(x: i64) -> (r: i64)
    requires
        0 <= x <= 32 * ONE,
    ensures
        r == exp_neg_of(x as int),
        0 <= r <= ONE,
{
    let y = fixmul(x, LOG2_E);
    proof {
        assert(0 <= fmul(x as int, LOG2_E as int) < 47 * one()) by (nonlinear_arith)
            requires
                0 <= x <= 32 * one(),
                fmul(x as int, LOG2_E as int) == (x as int) * (LOG2_E as int) / one(),
                LOG2_E == 6196328019,
        ;
    }
    let q: i64 = y / ONE;
    let frac: i64 = y % ONE;
    if frac == 0 {
        halve_n(ONE, q as u32)
    } else {
        let e = exp2_frac(ONE - frac);
        halve_n(e, (q + 1) as u32)
    }
}

} // verus!
