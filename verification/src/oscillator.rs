//! Band-limited oscillator.
//!
//! One oscillator produces one waveform sample per call. Saw and
//! variable-width pulse waveforms compensate their discontinuities by
//! injecting a band-limited step kernel, scaled by the discontinuity's sign
//! and sub-sample position, into a ring buffer of pending correction
//! samples; the other waveforms (used at LFO rates) are generated naively.
//!
//! The phase always stays in `[0, ONE)`, every pending correction slot is
//! bounded, and every waveform's sample is specified exactly — the
//! corrected ones through [`buffer_after_blep`] and the consumed
//! correction slot (the audible anti-aliasing quality is exercised by the
//! test suite).

use vstd::prelude::*;

use crate::fixed::{clamp64, fdiv, fixdiv, fixmul, fmul, one, spec_clamp, tdiv, ONE};

verus! {

/// Number of ring-buffer slots: the kernel covers 8 samples.
pub const BLEP_SLOTS: usize = 8;

/// Oversampling factor of the kernel table.
pub const KTABLE: usize = 64;

/// Corrections written per discontinuity (one less than the slot count,
/// as the final kernel sample is the settled value 1).
pub const C_BLEP: usize = 7;

/// Magnitude bound of every kernel table entry.
pub const BLEP_ABS_MAX: i64 = 4977095301;

/// Magnitude bound of a pending correction slot: several kernels may
/// stack additively; beyond this the slot saturates.
pub const SLOT_MAX: i64 = 8 * 4294967296;

/// The band-limited step kernel: the step response of a minimum-phase
/// Blackman-windowed sinc, 64 times oversampled over 8 samples, in Q32.32.
/// Minimum phase keeps the transition causal, so the correction lands at
/// the discontinuity instead of trailing it; the step settles at `ONE`
/// with a bounded ripple.
pub const BLEP_TABLE: [i64; 513] = [
    45, 142, 364, 823, 1678, 3141, 5489, 9067,
    14299, 21700, 31883, 45571, 63605, 86961, 116757, 154266,
    200931, 258376, 328421, 413096, 514651, 635577, 778617, 946781,
    1143362, 1371950, 1636449, 1941090, 2290451, 2689463, 3143438, 3658069,
    4239459, 4894123, 5629009, 6451510, 7369474, 8391217, 9525539, 10781725,
    12169565, 13699353, 15381905, 17228554, 19251165, 21462135, 23874394, 26501409,
    29357185, 32456260, 35813703, 39445110, 43366597, 47594789, 52146813, 57040285,
    62293294, 67924388, 73952554, 80397200, 87278129, 94615520, 102429895, 110742098,
    119573256, 128944755, 138878198, 149395371, 160518206, 172268738, 184669061, 197741288,
    211507500, 225989702, 241209768, 257189396, 273950051, 291512914, 309898824, 329128222,
    349221096, 370196921, 392074598, 414872401, 438607908, 463297951, 488958545, 515604836,
    543251038, 571910373, 601595012, 632316018, 664083286, 696905492, 730790031, 765742969,
    801768992, 838871352, 877051820, 916310644, 956646504, 998056471, 1040535969, 1084078742,
    1128676822, 1174320500, 1220998300, 1268696961, 1317401418, 1367094785, 1417758349, 1469371564,
    1521912047, 1575355583, 1629676130, 1684845831, 1740835029, 1797612291, 1855144427, 1913396522,
    1972331970, 2031912513, 2092098281, 2152847843, 2214118255, 2275865118, 2338042636, 2400603686,
    2463499881, 2526681641, 2590098278, 2653698067, 2717428332, 2781235536, 2845065367, 2908862833,
    2972572358, 3036137878, 3099502943, 3162610821, 3225404600, 3287827297, 3349821961, 3411331788,
    3472300224, 3532671078, 3592388633, 3651397754, 3709643999, 3767073727, 3823634208, 3879273729,
    3933941700, 3987588757, 4040166866, 4091629420, 4141931338, 4191029157, 4238881125, 4285447288,
    4330689573, 4374571870, 4417060104, 4458122314, 4497728711, 4535851750, 4572466179, 4607549099,
    4641080004, 4673040830, 4703415988, 4732192393, 4759359494, 4784909290, 4808836345, 4831137795,
    4851813351, 4870865293, 4888298464, 4904120247, 4918340552, 4930971782, 4942028802, 4951528902,
    4959491748, 4965939336, 4970895935, 4974388029, 4976444248, 4977095301, 4976373900, 4974314681,
    4970954123, 4966330456, 4960483574, 4953454940, 4945287488, 4936025523, 4925714615, 4914401498,
    4902133960, 4888960732, 4874931381, 4860096195, 4844506069, 4828212394, 4811266944, 4793721758,
    4775629029, 4757040992, 4738009809, 4718587460, 4698825636, 4678775626, 4658488217, 4638013585,
    4617401201, 4596699729, 4575956931, 4555219577, 4534533358, 4513942798, 4493491180, 4473220461,
    4453171207, 4433382525, 4413891995, 4394735616, 4375947750, 4357561075, 4339606539, 4322113322,
    4305108803, 4288618531, 4272666198, 4257273626, 4242460749, 4228245607, 4214644338, 4201671187,
    4189338507, 4177656770, 4166634584, 4156278716, 4146594110, 4137583923, 4129249554, 4121590686,
    4114605319, 4108289822, 4102638981, 4097646044, 4093302783, 4089599549, 4086525330, 4084067815,
    4082213460, 4080947554, 4080254287, 4080116822, 4080517361, 4081437226, 4082856924, 4084756228,
    4087114245, 4089909495, 4093119982, 4096723273, 4100696566, 4105016765, 4109660554, 4114604466,
    4119824951, 4125298448, 4131001448, 4136910561, 4143002578, 4149254529, 4155643747, 4162147917,
    4168745136, 4175413959, 4182133449, 4188883223, 4195643494, 4202395109, 4209119588, 4215799157,
    4222416777, 4228956172, 4235401855, 4241739149, 4247954201, 4254034003, 4259966403, 4265740108,
    4271344700, 4276770632, 4282009229, 4287052691, 4291894084, 4296527330, 4300947203, 4305149314,
    4309130095, 4312886785, 4316417407, 4319720752, 4322796353, 4325644464, 4328266029, 4330662660,
    4332836606, 4334790723, 4336528444, 4338053747, 4339371124, 4340485545, 4341402428, 4342127601,
    4342667273, 4343027996, 4343216630, 4343240313, 4343106423, 4342822548, 4342396449, 4341836032,
    4341149310, 4340344381, 4339429386, 4338412491, 4337301850, 4336105583, 4334831747, 4333488312,
    4332083135, 4330623943, 4329118303, 4327573611, 4325997067, 4324395660, 4322776154, 4321145070,
    4319508676, 4317872972, 4316243685, 4314626256, 4313025832, 4311447265, 4309895101, 4308373582,
    4306886639, 4305437895, 4304030664, 4302667949, 4301352450, 4300086566, 4298872395, 4297711745,
    4296606139, 4295556818, 4294564754, 4293630659, 4292754987, 4291937953, 4291179536, 4290479494,
    4289837376, 4289252527, 4288724109, 4288251104, 4287832334, 4287466467, 4287152035, 4286887441,
    4286670974, 4286500822, 4286375082, 4286291774, 4286248851, 4286244211, 4286275707, 4286341161,
    4286438371, 4286565122, 4286719197, 4286898384, 4287100487, 4287323332, 4287564777, 4287822719,
    4288095097, 4288379903, 4288675188, 4288979063, 4289289706, 4289605368, 4289924374, 4290245126,
    4290566111, 4290885896, 4291203133, 4291516563, 4291825012, 4292127396, 4292422718, 4292710069,
    4292988627, 4293257655, 4293516504, 4293764606, 4294001473, 4294226700, 4294439956, 4294640985,
    4294829602, 4295005692, 4295169202, 4295320145, 4295458590, 4295584662, 4295698538, 4295800444,
    4295890648, 4295969460, 4296037229, 4296094336, 4296141191, 4296178232, 4296205919, 4296224734,
    4296235172, 4296237743, 4296232966, 4296221366, 4296203474, 4296179819, 4296150932, 4296117338,
    4296079553, 4296038089, 4295993443, 4295946101, 4295896533, 4295845195, 4295792523, 4295738934,
    4295684824, 4295630570, 4295576524, 4295523015, 4295470349, 4295418809, 4295368651, 4295320108,
    4295273386, 4295228669, 4295186114, 4295145855, 4295108002, 4295072642, 4295039839, 4295009633,
    4294982047, 4294957080, 4294934714, 4294914913, 4294897622, 4294882771, 4294870278, 4294860044,
    4294851960, 4294845908, 4294841757, 4294839372, 4294838611, 4294839326, 4294841368, 4294844583,
    4294848820, 4294853927, 4294859755, 4294866158, 4294872997, 4294880135, 4294887448, 4294894814,
    4294902126, 4294909282, 4294916195, 4294922786, 4294928990, 4294934754, 4294940036, 4294944808,
    4294949054, 4294952770, 4294955962, 4294958649, 4294960859, 4294962629, 4294964004, 4294965033,
    4294965772, 4294966278, 4294966608, 4294966814, 4294966946, 4294967042, 4294967129, 4294967213,
    4294967296,
];

/// Every kernel entry lies within the documented magnitude bound.
#[verifier::rlimit(100)]
pub proof fn lemma_kernel_bounds()
    ensures
        forall|i: int| 0 <= i < 513 ==> -BLEP_ABS_MAX <= #[trigger] BLEP_TABLE[i] <= BLEP_ABS_MAX,
{
}

/// One kernel sample, exactly the table entry.
pub fn blep_sample(i: usize) -> (r: i64)
    requires
        i < 513,
    ensures
        r == BLEP_TABLE[i as int],
        -BLEP_ABS_MAX <= r <= BLEP_ABS_MAX,
{
    proof {
        lemma_kernel_bounds();
    }
    BLEP_TABLE[i]
}


/// The closed set of waveforms.
#[derive(Copy, Clone, Debug, PartialEq, Eq, Structural)]
pub enum WaveForm {
    /// Bi-polar antialiased positive ramp saw.
    Saw,
    /// Bi-polar antialiased square wave, variable pulse width.
    Square,
    /// Sine waveform.
    Sine,
    /// LFO: unipolar non-antialiased square, fixed 50% pulse width.
    UnipolarSquare,
    /// LFO: naive triangle.
    Triangle,
}

impl WaveForm {
    /// The waveform a small integer selector stands for.
    pub fn from(n: i32) -> (w: WaveForm)
        requires
            0 <= n <= 4,
        ensures
            w == (if n == 0 {
                WaveForm::Saw
            } else if n == 1 {
                WaveForm::Square
            } else if n == 2 {
                WaveForm::Sine
            } else if n == 3 {
                WaveForm::UnipolarSquare
            } else {
                WaveForm::Triangle
            }),
    {
        if n == 0 {
            WaveForm::Saw
        } else if n == 1 {
            WaveForm::Square
        } else if n == 2 {
            WaveForm::Sine
        } else if n == 3 {
            WaveForm::UnipolarSquare
        } else {
            WaveForm::Triangle
        }
    }
}

/// Linear interpolation between two kernel samples; the result stays
/// between them.
pub fn lerp(a: i64, b: i64, frac: i64) -> (r: i64)
    requires
        -BLEP_ABS_MAX <= a <= BLEP_ABS_MAX,
        -BLEP_ABS_MAX <= b <= BLEP_ABS_MAX,
        0 <= frac < ONE,
    ensures
        r == a + fmul(b - a, frac as int),
        -BLEP_ABS_MAX <= r <= BLEP_ABS_MAX,
{
    let d = fixmul(b - a, frac);
    proof {
        let diff = (b - a) as int;
        let prod = diff * (frac as int);
        assert((diff >= 0 ==> 0 <= prod <= diff * one()) && (diff < 0 ==> diff * one() <= prod
            <= 0)) by (nonlinear_arith)
            requires
                prod == diff * (frac as int),
                0 <= frac < one(),
                one() == 4294967296,
        ;
        crate::fixed::lemma_tdiv_approx(prod);
    }
    a + d
}

/// The naive sine: a two-segment parabola through 0, 1, 0, -1, 0 over one
/// period, adequate for LFO and plain tone duty.
pub open spec fn sine_of(p: int) -> int {
    if p <= 2147483648 {
        tdiv(16 * p * (2147483648 - p), one())
    } else {
        -tdiv(16 * (p - 2147483648) * (one() - p), one())
    }
}

pub fn sine_fixed(p: i64) -> (r: i64)
    requires
        0 <= p < ONE,
    ensures
        r == sine_of(p as int),
        -ONE <= r <= ONE,
{
    let half: i64 = 2147483648;
    if p <= half {
        proof {
            assert(0 <= 16 * (p as int) * ((2147483648 - p) as int) <= one() * one()) by (
            nonlinear_arith)
                requires
                    0 <= p <= 2147483648,
                    one() == 4294967296,
            ;
            assert(0 <= 16 * (p as int) * ((2147483648 - p) as int) / one() <= one()) by (
            nonlinear_arith)
                requires
                    0 <= 16 * (p as int) * ((2147483648 - p) as int) <= one() * one(),
                    one() == 4294967296,
            ;
        }
        let t: i64 = ((16 * (p as i128) * ((half - p) as i128)) / (ONE as i128)) as i64;
        t
    } else {
        proof {
            assert(0 <= 16 * ((p - 2147483648) as int) * ((one() - p) as int) <= one() * one())
                by (nonlinear_arith)
                requires
                    2147483648 < p < one(),
                    one() == 4294967296,
            ;
            assert(0 <= 16 * ((p - 2147483648) as int) * ((one() - p) as int) / one() <= one())
                by (nonlinear_arith)
                requires
                    0 <= 16 * ((p - 2147483648) as int) * ((one() - p) as int) <= one() * one(),
                    one() == 4294967296,
            ;
        }
        let t: i64 = ((16 * ((p - half) as i128) * ((ONE - p) as i128)) / (ONE as i128)) as i64;
        -t
    }
}

/// The naive triangle in `[0, ONE]`: rising over the first half period,
/// falling over the second.
pub open spec fn triangle_of(p: int) -> int {
    if p > 2147483648 {
        2 * (one() - p)
    } else {
        2 * p
    }
}

/// The naive unipolar square at 50% duty.
pub open spec fn unipolar_square_of(p: int) -> int {
    if 0 < p <= 2147483648 {
        one()
    } else {
        0
    }
}

/// The phase increment one call advances by: `freq / sample_rate`, held
/// inside `[0, ONE)`.
pub open spec fn phase_step(freq: int, sample_rate: int) -> int {
    let f = spec_clamp(freq, 0, sample_rate);
    spec_clamp(fdiv(f, sample_rate), 0, one() - 1)
}

/// The phase after one step, wrapped at `ONE`.
pub open spec fn wrapped(p: int) -> int {
    if p >= one() {
        p - one()
    } else {
        p
    }
}

/// The interpolated kernel value at table position `ii` with fraction
/// `frac`.
pub open spec fn kernel_lerp(ii: int, frac: int) -> int {
    BLEP_TABLE[ii] + fmul(BLEP_TABLE[ii + 1] - BLEP_TABLE[ii], frac)
}

/// The correction one slot receives: the step's remaining distance to its
/// settled value, scaled by the discontinuity's signed magnitude.
pub open spec fn correction_of(amp: int, ii: int, frac: int) -> int {
    fmul(amp, one() - kernel_lerp(ii, frac))
}

/// The ring buffer after one injected correction: the seven slots from the
/// cursor (wrapping) receive the kernel corrections at stride `KTABLE`,
/// blended additively onto the first `live` still-pending slots and
/// initialising the rest, each saturating at `SLOT_MAX`; the eighth slot
/// is untouched.
pub open spec fn buffer_after_blep(
    buf: Seq<i64>,
    ib: int,
    live: int,
    offset: int,
    amp: int,
) -> Seq<i64> {
    Seq::new(
        8,
        |k: int|
            {
                let j = if k >= ib {
                    k - ib
                } else {
                    k + 8 - ib
                };
                if j < 7 {
                    let t = 64 * offset;
                    let c = correction_of(amp, t / one() + 64 * j, t % one());
                    if j < live {
                        spec_clamp(buf[k] + c, -SLOT_MAX as int, SLOT_MAX as int) as i64
                    } else {
                        spec_clamp(c, -SLOT_MAX as int, SLOT_MAX as int) as i64
                    }
                } else {
                    buf[k]
                }
            },
    )
}

/// One band-limited oscillator: a phase accumulator and a ring buffer of
/// pending band-limited corrections.
pub struct Oscillator {
    /// Pending correction samples, in signal units of the unipolar wave.
    pub buffer: Vec<i64>,
    /// Read/write cursor into `buffer`.
    pub i_buffer: usize,
    /// How many pending slots still hold live corrections.
    pub n_init: usize,
    /// Phase in `[0, ONE)`.
    pub phase: i64,
}

impl Oscillator {
    /// The correction buffer's own well-formedness, independent of the
    /// phase.
    pub open spec fn buf_wf(self) -> bool {
        &&& self.buffer.len() == BLEP_SLOTS
        &&& self.i_buffer < BLEP_SLOTS
        &&& self.n_init <= C_BLEP
        &&& forall|j: int|
            0 <= j < BLEP_SLOTS ==> -SLOT_MAX <= #[trigger] self.buffer[j] <= SLOT_MAX
    }

    pub open spec fn wf(self) -> bool {
        &&& self.buf_wf()
        &&& 0 <= self.phase < ONE
    }

    pub fn new() -> (o: Oscillator)
        ensures
            o.wf(),
            o.phase == 0,
            o.n_init == 0,
    {
        let mut buffer: Vec<i64> = Vec::new();
        let mut j: usize = 0;
        while j < 8
            invariant
                j <= 8,
                buffer.len() == j,
                forall|m: int| 0 <= m < j ==> #[trigger] buffer[m] == 0,
            decreases 8 - j,
        {
            buffer.push(0);
            j = j + 1;
        }
        Oscillator { buffer, i_buffer: 0, n_init: 0, phase: 0 }
    }

    /// Reset the phase to 0: LFO retrigger-on-note semantics.
    pub fn trig(&mut self)
        requires
            old(self).wf(),
        ensures
            final(self).wf(),
            *final(self) == (Oscillator { phase: 0, ..*old(self) }),
    {
        self.phase = 0;
    }

    /// Seed the phase directly, so detuned unison copies need not start
    /// phase-coherent.
    pub fn set_phase(&mut self, phase: i64)
        requires
            old(self).wf(),
            0 <= phase < ONE,
        ensures
            final(self).wf(),
            *final(self) == (Oscillator { phase: phase, ..*old(self) }),
    {
        self.phase = phase;
    }

    /// Inject one band-limited step correction of sign/magnitude `amp`,
    /// `offset` of a phase period after the discontinuity: exactly
    /// [`buffer_after_blep`] on the correction buffer.
    #[verifier::rlimit(100)]
    fn add_blep(&mut self, offset: i64, amp: i64)
        requires
            old(self).buf_wf(),
            0 <= offset < ONE,
            -ONE <= amp <= ONE,
        ensures
            final(self).buf_wf(),
            final(self).n_init == C_BLEP,
            final(self).i_buffer == old(self).i_buffer,
            final(self).phase == old(self).phase,
            final(self).buffer.len() == old(self).buffer.len(),
            final(self).buffer@ == buffer_after_blep(
                old(self).buffer@,
                old(self).i_buffer as int,
                old(self).n_init as int,
                offset as int,
                amp as int,
            ),
    {
        let ghost target = buffer_after_blep(
            old(self).buffer@,
            old(self).i_buffer as int,
            old(self).n_init as int,
            offset as int,
            amp as int,
        );
        let t: i64 = 64 * offset;
        let mut in_index: usize = (t / ONE) as usize;
        let frac: i64 = t % ONE;
        proof {
            assert(0 <= (t as int) / one() <= 63 && 0 <= (t as int) % one() < one()) by (
            nonlinear_arith)
                requires
                    0 <= t < 64 * one(),
                    one() == 4294967296,
            ;
        }
        let mut out_index: usize = self.i_buffer;
        let live: usize = self.n_init;
        let mut i: usize = 0;
        while i < 7
            invariant
                self.buf_wf(),
                old(self).buf_wf(),
                i <= 7,
                live == old(self).n_init,
                live <= 7,
                out_index < 8,
                out_index as int == (if old(self).i_buffer + i >= 8 {
                    old(self).i_buffer + i - 8
                } else {
                    old(self).i_buffer + i
                }),
                t == 64 * offset,
                0 <= offset < ONE,
                0 <= (t as int) / one() <= 63,
                in_index == (t as int) / one() + 64 * i,
                frac == (t as int) % one(),
                0 <= frac < ONE,
                -ONE <= amp <= ONE,
                self.i_buffer == old(self).i_buffer,
                self.phase == old(self).phase,
                self.n_init == old(self).n_init,
                self.buffer.len() == 8,
                target == buffer_after_blep(
                    old(self).buffer@,
                    old(self).i_buffer as int,
                    old(self).n_init as int,
                    offset as int,
                    amp as int,
                ),
                forall|k: int|
                    0 <= k < 8 ==> #[trigger] self.buffer[k] == (if (if k >= old(self).i_buffer {
                        k - old(self).i_buffer
                    } else {
                        k + 8 - old(self).i_buffer
                    }) < i {
                        target[k]
                    } else {
                        old(self).buffer[k]
                    }),
            decreases 7 - i,
        {
            let f = lerp(blep_sample(in_index), blep_sample(in_index + 1), frac);
            let v = fixmul(amp, ONE - f);
            proof {
                let prod = (amp as int) * ((ONE - f) as int);
                assert(-(3 * one() * one()) <= prod <= 3 * one() * one()) by (nonlinear_arith)
                    requires
                        prod == (amp as int) * ((ONE - f) as int),
                        -one() <= amp <= one(),
                        -4977095301int <= f <= 4977095301int,
                        one() == 4294967296,
                ;
                crate::fixed::lemma_tdiv_approx(prod);
                assert(f == kernel_lerp(in_index as int, frac as int));
                assert(v == correction_of(amp as int, (t as int) / one() + 64 * (i as int),
                    (t as int) % one()));
            }
            if i < live {
                let cur = self.buffer[out_index];
                let blended = clamp64(cur + v, -SLOT_MAX, SLOT_MAX);
                self.buffer.set(out_index, blended);
            } else {
                let stored = clamp64(v, -SLOT_MAX, SLOT_MAX);
                self.buffer.set(out_index, stored);
            }
            proof {
                assert(self.buffer[out_index as int] == target[out_index as int]);
            }
            in_index = in_index + 64;
            out_index = if out_index + 1 >= 8 {
                0
            } else {
                out_index + 1
            };
            i = i + 1;
        }
        self.n_init = 7;
        proof {
            assert(self.buffer@ =~= target);
        }
    }

    /// Produce one sample: advance the phase by `freq / sample_rate`
    /// (wrapping at `ONE`), generate the selected waveform, compensate saw
    /// and pulse discontinuities from the correction buffer, and scale to
    /// the bipolar range.
    ///
    /// A non-positive frequency produces silence and leaves the state
    /// untouched. For the uncorrected waveforms the sample is given
    /// exactly; for saw and pulse the contract bounds it by the saturation
    /// headroom of the correction slots, and the test suite sharpens that
    /// to the audible tolerance near full scale.
    #[verifier::rlimit(100)]
    #[verifier::spinoff_prover]
    pub fn generate(
        &mut self,
        waveform: WaveForm,
        freq: i64,
        amplitude: i64,
        pulse_width: i64,
        sample_rate: i64,
    ) -> (r: i64)
        requires
            old(self).wf(),
            0 <= amplitude <= 0x10000000000,
            0 < pulse_width < ONE,
            ONE <= sample_rate <= 0x40000000000000,
        ensures
            final(self).wf(),
            freq <= 0 ==> r == 0 && *final(self) == *old(self),
            freq > 0 ==> final(self).phase == wrapped(
                old(self).phase + phase_step(freq as int, sample_rate as int),
            ),
            -19 * (amplitude as int) - ONE <= r <= 19 * (amplitude as int) + ONE,
            freq > 0 && waveform is Sine ==> r == fmul(
                sine_of(wrapped(old(self).phase + phase_step(freq as int, sample_rate as int))),
                amplitude as int,
            ),
            freq > 0 && waveform is Triangle ==> r == fmul(
                2 * triangle_of(
                    wrapped(old(self).phase + phase_step(freq as int, sample_rate as int)),
                ) - one(),
                amplitude as int,
            ),
            freq > 0 && waveform is UnipolarSquare ==> r == fmul(
                unipolar_square_of(
                    wrapped(old(self).phase + phase_step(freq as int, sample_rate as int)),
                ),
                amplitude as int,
            ),
            freq > 0 && waveform is Saw ==> ({
                let step = phase_step(freq as int, sample_rate as int);
                let p1 = old(self).phase + step;
                let ib = old(self).i_buffer as int;
                if p1 >= one() {
                    let p = p1 - one();
                    let off = spec_clamp(fdiv(p, step), 0, one() - 1);
                    let buf2 = buffer_after_blep(
                        old(self).buffer@,
                        ib,
                        old(self).n_init as int,
                        off,
                        one(),
                    );
                    &&& final(self).buffer@ == buf2
                    &&& final(self).n_init == 6
                    &&& r == fmul(2 * (p + buf2[ib]) - one(), amplitude as int)
                } else {
                    if old(self).n_init > 0 {
                        &&& final(self).buffer@ == old(self).buffer@
                        &&& final(self).n_init == old(self).n_init - 1
                        &&& r == fmul(
                            2 * (p1 + old(self).buffer[ib]) - one(),
                            amplitude as int,
                        )
                    } else {
                        &&& final(self).buffer@ == old(self).buffer@
                        &&& final(self).n_init == 0
                        &&& r == fmul(2 * p1 - one(), amplitude as int)
                    }
                }
            }),
            freq > 0 && waveform is Square ==> ({
                let step = phase_step(freq as int, sample_rate as int);
                let p1 = old(self).phase + step;
                let ib = old(self).i_buffer as int;
                let crossed = p1 > pulse_width && old(self).phase <= pulse_width;
                let mid_buf = if crossed {
                    buffer_after_blep(
                        old(self).buffer@,
                        ib,
                        old(self).n_init as int,
                        spec_clamp(fdiv(p1 - pulse_width, step), 0, one() - 1),
                        one(),
                    )
                } else {
                    old(self).buffer@
                };
                let mid_ninit: int = if crossed {
                    7
                } else {
                    old(self).n_init as int
                };
                let wrapped_now = p1 >= one();
                let p = if wrapped_now {
                    p1 - one()
                } else {
                    p1
                };
                let buf2 = if wrapped_now {
                    buffer_after_blep(
                        mid_buf,
                        ib,
                        mid_ninit,
                        spec_clamp(fdiv(p, step), 0, one() - 1),
                        -one(),
                    )
                } else {
                    mid_buf
                };
                let n2: int = if wrapped_now {
                    7
                } else {
                    mid_ninit
                };
                let wave: int = if 0 < p <= pulse_width {
                    one()
                } else {
                    0
                };
                &&& final(self).buffer@ == buf2
                &&& (n2 > 0 ==> final(self).n_init == n2 - 1 && r == fmul(
                    2 * (wave + buf2[ib]) - one(),
                    amplitude as int,
                ))
                &&& (n2 == 0 ==> final(self).n_init == 0 && r == fmul(
                    2 * wave - one(),
                    amplitude as int,
                ))
            }),
    {
        if freq <= 0 {
            return 0;
        }
        let f = clamp64(freq, 0, sample_rate);
        let dp_raw = fixdiv(f, sample_rate);
        let dp = clamp64(dp_raw, 0, ONE - 1);
        self.phase = self.phase + dp;
        match waveform {
            WaveForm::Saw => {
                if self.phase >= ONE {
                    self.phase = self.phase - ONE;
                    let off = clamp64(fixdiv(self.phase, dp), 0, ONE - 1);
                    self.add_blep(off, ONE);
                }
                let wave = self.phase;
                let blep = self.take_correction();
                let sample = wave + blep;
                let out = fixmul(2 * sample - ONE, amplitude);
                proof {
                    lemma_scaled_output_bounds(sample as int, amplitude as int);
                }
                out
            },
            WaveForm::Square => {
                if self.phase > pulse_width && self.phase - dp <= pulse_width {
                    let off = clamp64(fixdiv(self.phase - pulse_width, dp), 0, ONE - 1);
                    self.add_blep(off, ONE);
                }
                if self.phase >= ONE {
                    self.phase = self.phase - ONE;
                    let off = clamp64(fixdiv(self.phase, dp), 0, ONE - 1);
                    self.add_blep(off, -ONE);
                }
                let wave: i64 = if self.phase > 0 && self.phase <= pulse_width {
                    ONE
                } else {
                    0
                };
                let blep = self.take_correction();
                let sample = wave + blep;
                let out = fixmul(2 * sample - ONE, amplitude);
                proof {
                    lemma_scaled_output_bounds(sample as int, amplitude as int);
                }
                out
            },
            WaveForm::Sine => {
                if self.phase >= ONE {
                    self.phase = self.phase - ONE;
                }
                let wave = sine_fixed(self.phase);
                let out = fixmul(wave, amplitude);
                proof {
                    lemma_unit_output_bounds(wave as int, amplitude as int);
                }
                out
            },
            WaveForm::UnipolarSquare => {
                if self.phase >= ONE {
                    self.phase = self.phase - ONE;
                }
                let wave: i64 = if self.phase > 0 && self.phase <= ONE / 2 {
                    ONE
                } else {
                    0
                };
                let out = fixmul(wave, amplitude);
                proof {
                    lemma_unit_output_bounds(wave as int, amplitude as int);
                }
                out
            },
            WaveForm::Triangle => {
                if self.phase >= ONE {
                    self.phase = self.phase - ONE;
                }
                let wave: i64 = if self.phase > ONE / 2 {
                    2 * (ONE - self.phase)
                } else {
                    2 * self.phase
                };
                let out = fixmul(2 * wave - ONE, amplitude);
                proof {
                    lemma_unit_output_bounds((2 * (wave as int) - one()) as int, amplitude as int);
                }
                out
            },
        }
    }

    /// Consume the next pending correction sample, if any.
    fn take_correction(&mut self) -> (blep: i64)
        requires
            old(self).wf(),
        ensures
            final(self).wf(),
            -SLOT_MAX <= blep <= SLOT_MAX,
            final(self).phase == old(self).phase,
            final(self).buffer == old(self).buffer,
            old(self).n_init == 0 ==> blep == 0 && *final(self) == *old(self),
            old(self).n_init > 0 ==> blep == old(self).buffer[old(self).i_buffer as int]
                && final(self).n_init == old(self).n_init - 1 && final(self).i_buffer == (if old(
                self,
            ).i_buffer + 1 >= 8 {
                0int
            } else {
                old(self).i_buffer + 1
            }),
    {
        if self.n_init > 0 {
            let blep = self.buffer[self.i_buffer];
            self.n_init = self.n_init - 1;
            self.i_buffer = if self.i_buffer + 1 >= 8 {
                0
            } else {
                self.i_buffer + 1
            };
            blep
        } else {
            0
        }
    }
}

/// The bipolar scaling of a corrected sample stays within
/// `19 * amplitude + ONE` of zero while the sample is within the slot
/// bound of the unipolar range.
proof fn lemma_scaled_output_bounds(sample: int, amplitude: int)
    requires
        -(SLOT_MAX as int) <= sample <= one() + SLOT_MAX,
        0 <= amplitude <= 0x10000000000,
    ensures
        -19 * amplitude - one() <= fmul(2 * sample - one(), amplitude) <= 19 * amplitude + one(),
{
    let x = 2 * sample - one();
    let prod = x * amplitude;
    assert(-(19 * amplitude * one()) <= prod <= 19 * amplitude * one()) by (nonlinear_arith)
        requires
            prod == x * amplitude,
            -19 * one() <= x <= 19 * one(),
            0 <= amplitude,
            one() == 4294967296,
    ;
    crate::fixed::lemma_tdiv_approx(prod);
}

/// The bipolar scaling of a unit-range wave stays within the amplitude.
proof fn lemma_unit_output_bounds(wave: int, amplitude: int)
    requires
        -one() <= wave <= one(),
        0 <= amplitude <= 0x10000000000,
    ensures
        -amplitude <= fmul(wave, amplitude) <= amplitude,
        -19 * amplitude - one() <= fmul(wave, amplitude) <= 19 * amplitude + one(),
{
    let prod = wave * amplitude;
    assert(-(amplitude * one()) <= prod <= amplitude * one()) by (nonlinear_arith)
        requires
            prod == wave * amplitude,
            -one() <= wave <= one(),
            0 <= amplitude,
    ;
    assert(prod >= 0 ==> prod / one() <= amplitude) by (nonlinear_arith)
        requires
            prod <= amplitude * one(),
            one() == 4294967296,
    ;
    assert(prod < 0 ==> (-prod) / one() <= amplitude) by (nonlinear_arith)
        requires
            -(amplitude * one()) <= prod,
            one() == 4294967296,
    ;
    crate::fixed::lemma_tdiv_approx(prod);
}

} // verus!
