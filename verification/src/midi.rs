//! Pitch and velocity conversions.
//!
//! [`PitchTable`] holds the two lookup tables of the fast pitch-to-frequency
//! conversion: a 512-entry per-semitone multiplier table spanning 256
//! semitones either side of A4, and a 1001-entry table of `2^(k/12000)` used
//! to interpolate the fractional semitone. Every entry is pinned exactly by
//! a spec function, so `midi_pitch_to_freq` carries an exact contract, and
//! integer octaves of A4 are proved to map to exact frequencies.

use vstd::prelude::*;

use crate::fixed::{
    clamp64, exp2_frac, fixmul, fixmul_wide, fmul, halve_n, one, spec_clamp, tdiv, ONE,
};

verus! {

/// MIDI pitch of A4 in Q32.32.
pub const A4_PITCH: i64 = 69 * 4294967296;

/// 440 Hz in Q32.32.
pub const A4_FREQ: i64 = 440 * 4294967296;

pub const PITCH_TABLE_SIZE: usize = 512;

pub const POW2_TABLE_SIZE: usize = 1001;

/// `2^(1/12000)` in Q32.32: the ratio between adjacent entries of the
/// fractional-semitone table.
pub const POW2_STEP: i64 = 4295215390;

/// Upper clamp of the fractional-semitone table; its true entries stay
/// below `2^(1/12) * ONE`, well under this.
pub const POW2_CLAMP_HI: i64 = 4617089843;

/// Largest per-semitone table entry: `2^21 * SEMITONE_RATIO[11]`.
pub const PITCH_ENTRY_MAX: i64 = 17004253312712704;


/// `2^k` as a spec integer.
pub open spec fn pow2_int(k: nat) -> int
    decreases k,
{
    if k == 0 {
        1
    } else {
        2 * pow2_int((k - 1) as nat)
    }
}

pub proof fn lemma_pow2_pos(k: nat)
    ensures
        pow2_int(k) >= 1,
    decreases k,
{
    if k > 0 {
        lemma_pow2_pos((k - 1) as nat);
    }
}

pub proof fn lemma_pow2_monotone(a: nat, b: nat)
    requires
        a <= b,
    ensures
        1 <= pow2_int(a) <= pow2_int(b),
    decreases b,
{
    lemma_pow2_pos(a);
    if a < b {
        lemma_pow2_monotone(a, (b - 1) as nat);
    }
}

/// `2^(j/12)` in Q32.32 for `j = 0..=11`.
pub fn semitone_ratio_exec(j: usize) -> (r: i64)
    requires
        j <= 11,
    ensures
        r == semitone_ratio(j as int),
        4294967296 <= r <= 8107818609,
{
    if j == 0 {
        4294967296
    } else if j == 1 {
        4550359342
    } else if j == 2 {
        4820937788
    } else if j == 3 {
        5107605667
    } else if j == 4 {
        5411319705
    } else if j == 5 {
        5733093519
    } else if j == 6 {
        6074001000
    } else if j == 7 {
        6435179895
    } else if j == 8 {
        6817835604
    } else if j == 9 {
        7223245206
    } else if j == 10 {
        7652761717
    } else {
        8107818609
    }
}

pub proof fn lemma_pow2_values()
    ensures
        pow2_int(10) == 0x400,
        pow2_int(21) == 0x200000,
        pow2_int(22) == 0x400000,
{
    reveal_with_fuel(pow2_int, 23);
}

/// The spec twin of `SEMITONE_RATIO`.
pub open spec fn semitone_ratio(j: int) -> int {
    if j == 0 {
        4294967296
    } else if j == 1 {
        4550359342
    } else if j == 2 {
        4820937788
    } else if j == 3 {
        5107605667
    } else if j == 4 {
        5411319705
    } else if j == 5 {
        5733093519
    } else if j == 6 {
        6074001000
    } else if j == 7 {
        6435179895
    } else if j == 8 {
        6817835604
    } else if j == 9 {
        7223245206
    } else if j == 10 {
        7652761717
    } else {
        8107818609
    }
}

/// Entry `i` of the per-semitone table: `2^((i - 256) / 12) * ONE`, built
/// from an exact octave anchor times a twelfth-root multiplier. Index 256
/// (A4) is exactly `ONE`, and every 12th entry from there is an exact power
/// of two.
pub open spec fn pitch_entry(i: int) -> int {
    let t = i + 8;  // = (i - 256) + 22 * 12
    let o = t / 12;
    let j = t % 12;
    let base = if o >= 22 {
        one() * pow2_int((o - 22) as nat)
    } else {
        one() / pow2_int((22 - o) as nat)
    };
    tdiv(base * semitone_ratio(j), one())
}

/// Entry `k` of the fractional-semitone table: `2^(k/12000) * ONE`, built
/// multiplicatively and held inside `[ONE, POW2_CLAMP_HI]`.
pub open spec fn pow2_entry(k: int) -> int
    decreases k,
{
    if k <= 0 {
        one()
    } else {
        spec_clamp(tdiv(pow2_entry(k - 1) * POW2_STEP, one()), one(), POW2_CLAMP_HI as int)
    }
}

/// The exact value `midi_pitch_to_freq` returns for a given pitch: clamp to
/// the table span (187 semitones below A4 to 324 above, the 512 entries),
/// split into semitone and fraction, look up the semitone multiplier,
/// interpolate the fractional exponential, and scale by 440 Hz.
pub open spec fn freq_of_pitch(pitch: int) -> int {
    let p = spec_clamp(pitch, -187 * one(), 324 * one());
    let shifted = p + 187 * one();
    let idx = shifted / one();
    let frac = shifted % one();
    let entry = pitch_entry(idx);
    let a = frac * 1000;
    let p2i = a / one();
    let p2f = a % one();
    let interp = ((one() - p2f) * pow2_entry(p2i) + p2f * pow2_entry(p2i + 1)) / one();
    440 * tdiv(entry * interp, one())
}

/// `2^n` as an executable value, for small `n`.
pub fn pow2_exec(n: u32) -> (r: i64)
    requires
        n <= 22,
    ensures
        r == pow2_int(n as nat),
        1 <= r <= 0x400000,
{
    proof {
        lemma_pow2_values();
    }
    let mut r: i64 = 1;
    let mut k: u32 = 0;
    while k < n
        invariant
            k <= n <= 22,
            r == pow2_int(k as nat),
            1 <= r <= 0x400000,
        decreases n - k,
    {
        proof {
            assert(pow2_int((k + 1) as nat) == 2 * pow2_int(k as nat));
            lemma_pow2_monotone((k + 1) as nat, n as nat);
            lemma_pow2_monotone(n as nat, 22);
            lemma_pow2_values();
        }
        r = r * 2;
        k = k + 1;
    }
    proof {
        lemma_pow2_monotone(n as nat, 22);
        lemma_pow2_values();
    }
    r
}

/// The two lookup tables of the fast pitch conversion, immutable for the
/// life of the synthesiser.
pub struct PitchTable {
    pub pitch: Vec<i64>,
    pub pow2: Vec<i64>,
}

impl PitchTable {
    /// Every entry equals its spec value and carries the bounds the
    /// conversion needs.
    pub open spec fn wf(self) -> bool {
        &&& self.pitch.len() == 512
        &&& self.pow2.len() == 1001
        &&& forall|i: int|
            0 <= i < 512 ==> (#[trigger] self.pitch[i]) == pitch_entry(i) && 1 <= self.pitch[i]
                <= PITCH_ENTRY_MAX
        &&& forall|k: int|
            0 <= k < 1001 ==> (#[trigger] self.pow2[k]) == pow2_entry(k) && one() <= self.pow2[k]
                <= POW2_CLAMP_HI
    }

    pub fn new() -> (t: PitchTable)
        ensures
            t.wf(),
    {
        let mut pitch: Vec<i64> = Vec::new();
        let mut i: usize = 0;
        while i < 512
            invariant
                i <= 512,
                pitch.len() == i,
                forall|k: int|
                    0 <= k < i ==> pitch[k] == pitch_entry(k) && 1 <= pitch[k] <= PITCH_ENTRY_MAX,
            decreases 512 - i,
        {
            let t: usize = i + 8;
            let o: usize = t / 12;
            let j: usize = t % 12;
            proof {
                assert(o <= 43 && j <= 11 && (o >= 22 ==> o - 22 <= 21)) by (nonlinear_arith)
                    requires
                        t == i + 8,
                        i < 512,
                        o == t / 12,
                        j == t % 12,
                ;
                lemma_pow2_values();
            }
            let base: i64 = if o >= 22 {
                let pw = pow2_exec((o - 22) as u32);
                proof {
                    lemma_pow2_monotone((o - 22) as nat, 21);
                    assert(1 <= pw <= 0x200000);
                    assert(4294967296 <= 4294967296 * (pw as int) <= 0x20000000000000int) by (
                    nonlinear_arith)
                        requires
                            1 <= pw <= 0x200000,
                    ;
                }
                ONE * pw
            } else {
                let pw = pow2_exec((22 - o) as u32);
                proof {
                    assert(1 <= 4294967296int / (pw as int) <= 4294967296int) by (nonlinear_arith)
                        requires
                            1 <= pw <= 0x400000,
                    ;
                }
                ONE / pw
            };
            proof {
                assert(1 <= base <= 0x20000000000000int);
                assert(4294967296 <= (base as int) * semitone_ratio(j as int)
                    <= 0x20000000000000int * 8107818609) by (nonlinear_arith)
                    requires
                        1 <= base <= 0x20000000000000int,
                        4294967296 <= semitone_ratio(j as int) <= 8107818609,
                ;
                assert(1 <= ((base as int) * semitone_ratio(j as int)) / one() && ((base as int)
                    * semitone_ratio(j as int)) / one() <= PITCH_ENTRY_MAX) by (nonlinear_arith)
                    requires
                        4294967296 <= (base as int) * semitone_ratio(j as int)
                            <= 0x20000000000000int * 8107818609,
                        one() == 4294967296,
                        PITCH_ENTRY_MAX == 17004253312712704,
                ;
            }
            let ratio = semitone_ratio_exec(j);
            let entry = fixmul_wide(base, ratio);
            pitch.push(entry);
            i = i + 1;
        }
        let mut pow2: Vec<i64> = Vec::new();
        let mut p: i64 = ONE;
        pow2.push(p);
        let mut k: usize = 1;
        while k < 1001
            invariant
                1 <= k <= 1001,
                pow2.len() == k,
                p == pow2_entry(k - 1),
                ONE <= p <= POW2_CLAMP_HI,
                forall|m: int|
                    0 <= m < k ==> pow2[m] == pow2_entry(m) && ONE <= pow2[m] <= POW2_CLAMP_HI,
            decreases 1001 - k,
        {
            p = clamp64(fixmul(p, POW2_STEP), ONE, POW2_CLAMP_HI);
            pow2.push(p);
            k = k + 1;
        }
        PitchTable { pitch, pow2 }
    }

    /// The fast pitch-to-frequency conversion: exactly [`freq_of_pitch`].
    /// Pitches outside the 512-semitone span clamp to the nearest edge.
    pub fn midi_pitch_to_freq(&self, pitch: i64) -> (freq: i64)
        requires
            self.wf(),
        ensures
            freq == freq_of_pitch(pitch as int),
            0 < freq,
    {
        let p = clamp64(pitch, -187 * ONE, 324 * ONE);
        let shifted: i64 = p + 187 * ONE;
        let idx: i64 = shifted / ONE;
        let frac: i64 = shifted % ONE;
        proof {
            assert(0 <= shifted <= 511 * 4294967296int);
            assert(0 <= shifted ==> 0 <= (shifted as int) / one() && 0 <= (shifted as int)
                % one() < one()) by (nonlinear_arith)
                requires
                    one() == 4294967296,
            ;
            assert(shifted <= 511 * 4294967296int ==> (shifted as int) / one() <= 511) by (
            nonlinear_arith)
                requires
                    one() == 4294967296,
            ;
            assert(0 <= idx <= 511);
            assert(0 <= frac < ONE);
        }
        let entry: i64 = self.pitch[idx as usize];
        let a: i64 = frac * 1000;
        let p2i: i64 = a / ONE;
        let p2f: i64 = a % ONE;
        proof {
            assert(0 <= a < 1000 * one() ==> 0 <= (a as int) / one() <= 999 && 0 <= (a as int)
                % one() < one()) by (nonlinear_arith)
                requires
                    one() == 4294967296,
            ;
        }
        proof {
            assert(0 <= a < 1000 * 4294967296);
            assert(0 <= p2i <= 999);
            assert(0 <= p2f < ONE);
        }
        let lo: i64 = self.pow2[p2i as usize];
        let hi: i64 = self.pow2[(p2i + 1) as usize];
        proof {
            assert(one() <= lo <= POW2_CLAMP_HI);
            assert(one() <= hi <= POW2_CLAMP_HI);
            assert(one() * one() <= (one() - p2f) * (lo as int) + (p2f as int) * (hi as int)
                <= one() * (POW2_CLAMP_HI as int)) by (nonlinear_arith)
                requires
                    0 <= p2f < one(),
                    one() <= lo <= POW2_CLAMP_HI,
                    one() == 4294967296,
                    one() <= hi <= POW2_CLAMP_HI,
                    POW2_CLAMP_HI == 4617089843,
            ;
        }
        let interp_wide: i128 = ((ONE - p2f) as i128) * (lo as i128) + (p2f as i128) * (
        hi as i128);
        let interp: i64 = (interp_wide / (ONE as i128)) as i64;
        proof {
            assert(one() <= ((one() - p2f) * (lo as int) + (p2f as int) * (hi as int)) / one()
                <= POW2_CLAMP_HI) by (nonlinear_arith)
                requires
                    one() * one() <= (one() - p2f) * (lo as int) + (p2f as int) * (hi as int)
                        <= one() * (POW2_CLAMP_HI as int),
                    one() == 4294967296,
                    POW2_CLAMP_HI == 4617089843,
            ;
            assert(4294967296 <= (entry as int) * (interp as int) <= 17004253312712704int
                * 4617089843) by (nonlinear_arith)
                requires
                    1 <= entry <= 17004253312712704int,
                    4294967296 <= interp <= 4617089843,
            ;
            assert(1 <= ((entry as int) * (interp as int)) / one() <= 0x43c1e93ca2880bint) by (
            nonlinear_arith)
                requires
                    4294967296 <= (entry as int) * (interp as int) <= 17004253312712704int
                        * 4617089843,
                    one() == 4294967296,
            ;
        }
        let scaled = fixmul_wide(entry, interp);
        440 * scaled
    }
}

/// The reference conversion `440 * 2^((pitch - 69) / 12)`, computed through
/// the binary exponential rather than the lookup tables: exact at A4 and
/// at every whole octave of A4, doubling upward and halving downward.
pub fn midi_pitch_to_freq_slow(pitch: i64) -> (freq: i64)
    requires
        -256 * 4294967296 <= pitch <= 188 * 4294967296,
    ensures
        0 <= freq,
        pitch == A4_PITCH ==> freq == A4_FREQ,
        ({
            let d = pitch - A4_PITCH;
            &&& (d >= 0 && d % (12 * one()) == 0 ==> freq == 440 * one() * pow2_int(
                (d / (12 * one())) as nat,
            ))
            &&& (d < 0 && d % (12 * one()) == 0 ==> freq == crate::fixed::halved(
                440 * one(),
                ((-d) / (12 * one())) as nat,
            ))
        }),
{
    let d: i64 = pitch - A4_PITCH;
    let twelve: i64 = 12 * ONE;
    let q: i64 = if d >= 0 {
        d / twelve
    } else {
        -((-d + twelve - 1) / twelve)
    };
    proof {
        assert(d >= 0 ==> 0 <= (d as int) / (12 * one()) <= 10 && (d as int) - ((d as int) / (12
            * one())) * (12 * one()) >= 0 && (d as int) - ((d as int) / (12 * one())) * (12
            * one()) < 12 * one()) by (nonlinear_arith)
            requires
                d <= 119 * one(),
                one() == 4294967296,
        ;
        assert(d < 0 ==> -28 <= -((-(d as int) + 12 * one() - 1) / (12 * one())) <= 0 && (
        d as int) - (-((-(d as int) + 12 * one() - 1) / (12 * one()))) * (12 * one()) >= 0 && (
        d as int) - (-((-(d as int) + 12 * one() - 1) / (12 * one()))) * (12 * one()) < 12
            * one()) by (nonlinear_arith)
            requires
                -325 * one() <= d,
                one() == 4294967296,
        ;
        assert(d == 0 ==> q == 0);
        if (d as int) % (12 * one()) == 0 {
            if d >= 0 {
                vstd::arithmetic::div_mod::lemma_fundamental_div_mod(d as int, 12 * one());
            } else {
                vstd::arithmetic::div_mod::lemma_fundamental_div_mod(d as int, 12 * one());
                let qd = (d as int) / (12 * one());
                assert(-(d as int) == (-qd) * (12 * one()) + 0) by (nonlinear_arith)
                    requires
                        d as int == qd * (12 * one()),
                ;
                vstd::arithmetic::div_mod::lemma_fundamental_div_mod_converse(
                    -(d as int),
                    12 * one(),
                    -qd,
                    0,
                );
                let k = (-(d as int)) / (12 * one());
                assert(k == -qd);
                assert(-(d as int) + 12 * one() - 1 == k * (12 * one()) + (12 * one() - 1)) by (
                nonlinear_arith)
                    requires
                        -(d as int) == k * (12 * one()),
                ;
                vstd::arithmetic::div_mod::lemma_fundamental_div_mod_converse(
                    -(d as int) + 12 * one() - 1,
                    12 * one(),
                    k,
                    12 * one() - 1,
                );
                assert(q == -k);
            }
        }
    }
    let rem: i64 = d - q * twelve;
    let f: i64 = rem / 12;
    let v = exp2_frac(f);
    let base: i64 = 440 * v;
    if q >= 0 {
        proof {
            lemma_pow2_values();
        }
        let mut r: i64 = base;
        let mut k: i64 = 0;
        while k < q
            invariant
                0 <= k <= q <= 10,
                0 < base <= 880 * 4294967296,
                r == (base as int) * pow2_int(k as nat),
                0 < r <= 880 * 4294967296 * 1024,
            decreases q - k,
        {
            proof {
                assert(pow2_int((k + 1) as nat) == 2 * pow2_int(k as nat));
                lemma_pow2_monotone((k + 1) as nat, 10);
                lemma_pow2_values();
                assert((base as int) * pow2_int((k + 1) as nat) == 2 * ((base as int) * pow2_int(
                    k as nat,
                )) && (base as int) * pow2_int((k + 1) as nat) <= 880 * 4294967296int * 1024) by (
                nonlinear_arith)
                    requires
                        0 < base <= 880 * 4294967296int,
                        1 <= pow2_int((k + 1) as nat) <= 0x400,
                        pow2_int((k + 1) as nat) == 2 * pow2_int(k as nat),
                ;
            }
            r = r * 2;
            k = k + 1;
        }
        r
    } else {
        halve_n(base, (-q) as u32)
    }
}

/// The binary logarithm of a positive Q32.32 value, as integer part times
/// `ONE` plus a 32-bit binary fraction. The integer part `n` satisfies the
/// power-of-two bracket `2^n <= x / ONE < 2^(n+1)`; the fraction's
/// accuracy is a numeric property exercised by the tests.
pub fn log2_fixed(x: i64) -> (r: i64)
    requires
        1 <= x <= 0x40000000000000,
    ensures
        -32 * (ONE as int) <= r <= 63 * (ONE as int),
        ({
            let n = (r as int) / one();
            &&& (n >= 0 ==> pow2_int(n as nat) * one() <= x < 2 * pow2_int(n as nat) * one())
            &&& (n < 0 ==> one() <= pow2_int((-n) as nat) * x < 2 * one())
        }),
{
    let mut m: i64 = x;
    let mut n: i64 = 0;
    while m >= 2 * ONE && n < 62
        invariant
            1 <= m <= 0x40000000000000,
            0 <= n <= 62,
            1 <= x <= 0x40000000000000,
            pow2_int(n as nat) * m <= x < pow2_int(n as nat) * (m + 1),
            n > 0 ==> m >= ONE,
        decreases m,
    {
        proof {
            lemma_pow2_pos(n as nat);
            assert(pow2_int((n + 1) as nat) == 2 * pow2_int(n as nat));
            assert(pow2_int((n + 1) as nat) * (m / 2) <= pow2_int(n as nat) * m && pow2_int(
                n as nat,
            ) * (m + 1) <= pow2_int((n + 1) as nat) * ((m / 2) + 1)) by (nonlinear_arith)
                requires
                    pow2_int((n + 1) as nat) == 2 * pow2_int(n as nat),
                    pow2_int(n as nat) >= 1,
                    m >= 1,
            ;
        }
        m = m / 2;
        n = n + 1;
    }
    proof {
        if m >= 2 * ONE {
            lemma_pow2_monotone(23, n as nat);
            assert(pow2_int(23) == 0x800000) by {
                reveal_with_fuel(pow2_int, 24);
            }
            assert(pow2_int(n as nat) * m >= 0x800000 * (2 * one())) by (nonlinear_arith)
                requires
                    pow2_int(n as nat) >= 0x800000,
                    m >= 2 * one(),
                    one() == 4294967296,
            ;
            assert(false);
        }
    }
    while m < ONE && n > -32
        invariant
            1 <= m < 2 * ONE,
            -32 <= n <= 62,
            1 <= x <= 0x40000000000000,
            n >= 0 ==> pow2_int(n as nat) * m <= x < pow2_int(n as nat) * (m + 1),
            n > 0 ==> m >= ONE,
            n < 0 ==> m == pow2_int((-n) as nat) * x,
        decreases n + 32,
    {
        proof {
            assert(n <= 0);
            if n == 0 {
                assert(pow2_int(0) == 1);
                assert(1 * m <= x < 1 * (m + 1)) by (nonlinear_arith)
                    requires
                        pow2_int(0nat) * m <= x < pow2_int(0nat) * (m + 1),
                        pow2_int(0nat) == 1,
                ;
                assert(m == x);
                assert(pow2_int(1nat) == 2 * pow2_int(0));
                assert(m * 2 == pow2_int(1nat) * x) by (nonlinear_arith)
                    requires
                        m == x,
                        pow2_int(1nat) == 2,
                ;
            } else {
                assert(pow2_int((-(n - 1)) as nat) == 2 * pow2_int((-n) as nat));
                assert(m * 2 == pow2_int((-(n - 1)) as nat) * x) by (nonlinear_arith)
                    requires
                        m == pow2_int((-n) as nat) * x,
                        pow2_int((-(n - 1)) as nat) == 2 * pow2_int((-n) as nat),
                ;
            }
        }
        m = m * 2;
        n = n - 1;
    }
    proof {
        if m < ONE {
            assert(n == -32);
            lemma_pow2_pos(32nat);
            assert(pow2_int(32nat) == 0x100000000) by {
                reveal_with_fuel(pow2_int, 33);
            }
            assert(m == pow2_int(32nat) * x && pow2_int(32nat) * x >= 0x100000000) by (
            nonlinear_arith)
                requires
                    m == pow2_int(32nat) * x,
                    pow2_int(32nat) == 0x100000000,
                    x >= 1,
            ;
            assert(false);
        }
        if n >= 0 {
            lemma_pow2_pos(n as nat);
            assert(pow2_int(n as nat) * one() <= x < 2 * pow2_int(n as nat) * one()) by (
            nonlinear_arith)
                requires
                    pow2_int(n as nat) * m <= x < pow2_int(n as nat) * (m + 1),
                    pow2_int(n as nat) >= 1,
                    one() <= m < 2 * one(),
                    one() == 4294967296,
            ;
        } else {
            assert(one() <= pow2_int((-n) as nat) * x < 2 * one());
        }
    }
    let ghost n0 = n as int;
    let mut frac: i64 = 0;
    let mut bit: i64 = ONE / 2;
    let mut k: usize = 0;
    while k < 32
        invariant
            k <= 32,
            ONE <= m < 2 * ONE,
            0 <= bit <= ONE / 2,
            0 <= frac <= ONE - 1,
            frac + 2 * bit <= ONE,
        decreases 32 - k,
    {
        let m2 = fixmul(m, m);
        proof {
            assert(one() <= ((m as int) * (m as int)) / one() < 4 * one()) by (nonlinear_arith)
                requires
                    one() <= m < 2 * one(),
                    one() == 4294967296,
            ;
        }
        if m2 >= 2 * ONE {
            m = m2 / 2;
            frac = frac + bit;
        } else {
            m = m2;
        }
        bit = bit / 2;
        k = k + 1;
    }
    proof {
        vstd::arithmetic::div_mod::lemma_fundamental_div_mod_converse(
            n0 * one() + frac,
            one(),
            n0,
            frac as int,
        );
    }
    n * ONE + frac
}

/// MIDI pitch of a frequency: `12 * log2(freq / 440) + 69`, through the
/// fixed-point binary logarithm.
pub fn freq_to_midi_pitch(freq: i64) -> (pitch: i64)
    requires
        1 <= freq <= 0x40000000000000,
    ensures
        -1600 * (ONE as int) <= pitch <= 1600 * (ONE as int),
{
    let lf = log2_fixed(freq);
    let la = log2_fixed(A4_FREQ);
    12 * (lf - la) + A4_PITCH
}

/// Q32.32 constants of the velocity curve `(m*v + b)^2`.
pub const VEL_B: i64 = 102808632;

pub const VEL_M: i64 = 33009123;

/// The amplitude the curve assigns to a velocity: `(VEL_M * v + VEL_B)^2`,
/// a perceptual loudness mapping. At most `ONE`.
pub open spec fn amplitude_of_velocity(v: int) -> int {
    fmul(VEL_M * v + VEL_B, VEL_M * v + VEL_B)
}

pub fn midi_velocity_to_amplitude(velocity: u8) -> (amp: i64)
    requires
        velocity <= 127,
    ensures
        amp == amplitude_of_velocity(velocity as int),
        0 <= amp <= ONE,
{
    let t: i64 = VEL_M * (velocity as i64) + VEL_B;
    let amp = fixmul(t, t);
    proof {
        assert(0 <= ((t as int) * (t as int)) / one() <= one()) by (nonlinear_arith)
            requires
                0 < t < one(),
                one() == 4294967296,
        ;
    }
    amp
}

/// Law: the fast conversion is exact at A4 and at every whole octave of A4
/// within the table: pitch `69 + 12k` maps to exactly `440 * 2^k` Hz for
/// `0 <= k <= 21`, and to exactly `440 / 2^k` Hz (in Q32.32) for negative
/// octaves down to `-21`.
pub proof fn lemma_octave_exact(k: int)
    requires
        -21 <= k <= 21,
    ensures
        k >= 0 ==> freq_of_pitch((69 + 12 * k) * one()) == 440 * one() * pow2_int(k as nat),
        k < 0 ==> freq_of_pitch((69 + 12 * k) * one()) == 440 * (one() / pow2_int((-k) as nat)),
{
    let pitch = (69 + 12 * k) * one();
    assert(pitch == 69 * 4294967296int + (12 * 4294967296int) * k);
    assert(-187 * one() <= pitch <= 324 * one());
    assert(spec_clamp(pitch, -187 * one(), 324 * one()) == pitch);
    let shifted = pitch + 187 * one();
    assert(shifted == (256 + 12 * k) * 4294967296int);
    let idx = 256 + 12 * k;
    vstd::arithmetic::div_mod::lemma_fundamental_div_mod_converse(
        shifted,
        4294967296,
        idx,
        0,
    );
    let t = idx + 8;
    vstd::arithmetic::div_mod::lemma_fundamental_div_mod_converse(t, 12, 22 + k, 0);
    assert(pow2_entry(0) == one());
    assert((one() - 0) * pow2_entry(0) + 0 * pow2_entry(1) == one() * one());
    assert((one() * one()) / one() == one()) by (nonlinear_arith)
        requires
            one() == 4294967296,
    ;
    if k >= 0 {
        lemma_pow2_monotone(k as nat, 21);
        lemma_pow2_values();
        let base = one() * pow2_int(k as nat);
        assert(pitch_entry(idx) == tdiv(base * one(), one()));
        assert(base * one() >= 0 && (base * one()) / one() == base) by (nonlinear_arith)
            requires
                1 <= base,
                one() == 4294967296,
        ;
        assert(freq_of_pitch(pitch) == 440 * tdiv(base * one(), one()));
        assert(freq_of_pitch(pitch) == 440 * base);
    } else {
        lemma_pow2_monotone((-k) as nat, 21);
        lemma_pow2_values();
        let base = one() / pow2_int((-k) as nat);
        assert(1 <= base) by (nonlinear_arith)
            requires
                base == one() / pow2_int((-k) as nat),
                1 <= pow2_int((-k) as nat) <= 0x200000,
                one() == 4294967296,
        ;
        assert(pitch_entry(idx) == tdiv(base * one(), one()));
        assert(base * one() >= 0 && (base * one()) / one() == base) by (nonlinear_arith)
            requires
                1 <= base,
                one() == 4294967296,
        ;
        assert(freq_of_pitch(pitch) == 440 * base);
    }
}

/// Law: A4 exactly: pitch 69 maps to exactly 440 Hz.
pub proof fn lemma_a4_exact()
    ensures
        freq_of_pitch(69 * one()) == 440 * one(),
{
    lemma_octave_exact(0);
    lemma_pow2_values();
    assert(pow2_int(0) == 1);
}

} // verus!
