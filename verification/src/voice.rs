//! One polyphonic voice: two unison oscillator banks, an LFO, a stereo
//! ladder-filter pair and two ADSR envelopes, rendering one note into an
//! output block.
//!
//! `generate` renders one sub-block sample by sample: glide the current
//! note toward the target, derive each unison carrier's frequency, sum the
//! detuned oscillator copies with the stereo spread pattern, modulate the
//! filter cutoff in semitone space (key tracking, envelope, LFO and
//! velocity, clamped to the audible band), filter, scale by the amplitude
//! envelope and master gain, and accumulate — add, never overwrite — into
//! the caller's buffers.

use vstd::prelude::*;

use crate::envelope::AdsrEnvelope;
use crate::fixed::{clamp64, fdiv, fixdiv, fixmul, lemma_fmul_bound, one, ONE};
use crate::huovilainen::HuovilainenMoog;
use crate::midi::{freq_to_midi_pitch, midi_velocity_to_amplitude, PitchTable};
use crate::oscillator::{Oscillator, WaveForm};

verus! {

/// Largest unison count.
pub const MAX_UNISON: usize = 7;

/// C3, the key-tracking pivot note, in Q32.32.
pub const KEYTRACK_PIVOT_NOTE: i64 = 48 * 4294967296;

/// 20 Hz, the lower cutoff clamp.
pub const MIN_FREQ: i64 = 20 * 4294967296;

/// 20 kHz, the upper cutoff clamp.
pub const MAX_FREQ: i64 = 20000 * 4294967296;

/// Bound on one voice's per-sample contribution to one output channel.
pub const VOICE_SAMPLE_MAX: i64 = 130 * 4294967296;

/// Symmetric per-voice-count detune offsets, scaled by the user detune
/// amount: row `n` holds the offsets of an `n`-voice unison.
pub open spec fn detune_pattern_of(n: int, v: int) -> int {
    if n <= 1 {
        0
    } else if n == 2 {
        if v == 0 {
            -one()
        } else {
            one()
        }
    } else if n == 3 {
        if v == 0 {
            -one()
        } else if v == 1 {
            0
        } else {
            one()
        }
    } else if n == 4 {
        if v == 0 {
            -one()
        } else if v == 1 {
            -2147483648
        } else if v == 2 {
            2147483648
        } else {
            one()
        }
    } else if n == 5 {
        if v == 0 {
            -one()
        } else if v == 1 {
            -2147483648
        } else if v == 2 {
            0
        } else if v == 3 {
            2147483648
        } else {
            one()
        }
    } else if n == 6 {
        if v == 0 {
            -one()
        } else if v == 1 {
            -2863454696
        } else if v == 2 {
            -1431512600
        } else if v == 3 {
            1431512600
        } else if v == 4 {
            2863454696
        } else {
            one()
        }
    } else {
        if v == 0 {
            -one()
        } else if v == 1 {
            -2863454696
        } else if v == 2 {
            -1431512600
        } else if v == 3 {
            0
        } else if v == 4 {
            1431512600
        } else if v == 5 {
            2863454696
        } else {
            one()
        }
    }
}

/// Per-voice-count stereo pan signs, scaled by the user spread amount.
pub open spec fn spread_pattern_of(n: int, v: int) -> int {
    if n <= 1 {
        0
    } else if n == 2 {
        if v == 0 {
            -one()
        } else {
            one()
        }
    } else if n == 3 {
        if v == 0 {
            -one()
        } else if v == 1 {
            0
        } else {
            one()
        }
    } else if n == 4 {
        if v == 0 || v == 2 {
            -one()
        } else {
            one()
        }
    } else if n == 5 {
        if v == 0 || v == 4 {
            -one()
        } else if v == 2 {
            0
        } else {
            one()
        }
    } else if n == 6 {
        if v == 0 || v == 2 || v == 4 {
            -one()
        } else {
            one()
        }
    } else {
        if v == 0 || v == 2 || v == 5 {
            -one()
        } else if v == 3 {
            0
        } else {
            one()
        }
    }
}

pub fn detune_pattern(n: usize, v: usize) -> (r: i64)
    requires
        v < n <= 7,
    ensures
        r == detune_pattern_of(n as int, v as int),
        -ONE <= r <= ONE,
{
    let third: i64 = 1431512600;
    let two_third: i64 = 2863454696;
    let half: i64 = 2147483648;
    if n <= 1 {
        0
    } else if n == 2 {
        if v == 0 {
            -ONE
        } else {
            ONE
        }
    } else if n == 3 {
        if v == 0 {
            -ONE
        } else if v == 1 {
            0
        } else {
            ONE
        }
    } else if n == 4 {
        if v == 0 {
            -ONE
        } else if v == 1 {
            -half
        } else if v == 2 {
            half
        } else {
            ONE
        }
    } else if n == 5 {
        if v == 0 {
            -ONE
        } else if v == 1 {
            -half
        } else if v == 2 {
            0
        } else if v == 3 {
            half
        } else {
            ONE
        }
    } else if n == 6 {
        if v == 0 {
            -ONE
        } else if v == 1 {
            -two_third
        } else if v == 2 {
            -third
        } else if v == 3 {
            third
        } else if v == 4 {
            two_third
        } else {
            ONE
        }
    } else {
        if v == 0 {
            -ONE
        } else if v == 1 {
            -two_third
        } else if v == 2 {
            -third
        } else if v == 3 {
            0
        } else if v == 4 {
            third
        } else if v == 5 {
            two_third
        } else {
            ONE
        }
    }
}

pub fn spread_pattern(n: usize, v: usize) -> (r: i64)
    requires
        v < n <= 7,
    ensures
        r == spread_pattern_of(n as int, v as int),
        -ONE <= r <= ONE,
{
    if n <= 1 {
        0
    } else if n == 2 {
        if v == 0 {
            -ONE
        } else {
            ONE
        }
    } else if n == 3 {
        if v == 0 {
            -ONE
        } else if v == 1 {
            0
        } else {
            ONE
        }
    } else if n == 4 {
        if v == 0 || v == 2 {
            -ONE
        } else {
            ONE
        }
    } else if n == 5 {
        if v == 0 || v == 4 {
            -ONE
        } else if v == 2 {
            0
        } else {
            ONE
        }
    } else if n == 6 {
        if v == 0 || v == 2 || v == 4 {
            -ONE
        } else {
            ONE
        }
    } else {
        if v == 0 || v == 2 || v == 5 {
            -ONE
        } else if v == 3 {
            0
        } else {
            ONE
        }
    }
}

/// The per-block parameter snapshot a voice renders against: plain Q32.32
/// values within their declared ranges, sampled once per sub-block by the
/// caller from its smoothed parameter store.
pub struct VoiceParams {
    pub osc1_waveform: WaveForm,
    pub osc2_waveform: WaveForm,
    pub lfo_waveform: WaveForm,
    pub osc1_level: i64,
    pub osc2_level: i64,
    pub osc1_octave: i32,
    pub osc2_octave: i32,
    pub osc1_detune: i64,
    pub osc2_detune: i64,
    pub osc1_pulsewidth: i64,
    pub osc2_pulsewidth: i64,
    pub lfo_freq: i64,
    pub lfo_osc1_detune_mod_depth: i64,
    pub lfo_filter_mod_depth: i64,
    pub filter_cutoff: i64,
    pub filter_resonance: i64,
    pub filter_env_mod_gain: i64,
    pub filter_key_track: i64,
    pub filter_velocity_mod: i64,
    pub amp_env_attack: i64,
    pub amp_env_decay: i64,
    pub amp_env_sustain: i64,
    pub amp_env_release: i64,
    pub filter_env_attack: i64,
    pub filter_env_decay: i64,
    pub filter_env_sustain: i64,
    pub filter_env_release: i64,
    pub master_gain: i64,
    pub unison_detune: i64,
    pub unison_stereo_spread: i64,
    pub poly_mode: bool,
    pub portamento: i64,
    pub unison_voices: usize,
    pub lfo_key_trig: bool,
}

impl VoiceParams {
    /// The declared ranges of every parameter.
    pub open spec fn wf(self) -> bool {
        &&& (self.lfo_waveform is Sine || self.lfo_waveform is UnipolarSquare
            || self.lfo_waveform is Triangle)
        &&& 0 <= self.osc1_level <= ONE
        &&& 0 <= self.osc2_level <= ONE
        &&& -2 <= self.osc1_octave <= 2
        &&& -2 <= self.osc2_octave <= 2
        &&& -2 * ONE <= self.osc1_detune <= 2 * ONE
        &&& -2 * ONE <= self.osc2_detune <= 2 * ONE
        &&& 0 < self.osc1_pulsewidth < ONE
        &&& 0 < self.osc2_pulsewidth < ONE
        &&& 0 <= self.lfo_freq <= 20 * ONE
        &&& -16 * ONE <= self.lfo_osc1_detune_mod_depth <= 16 * ONE
        &&& -ONE <= self.lfo_filter_mod_depth <= ONE
        &&& MIN_FREQ <= self.filter_cutoff <= MAX_FREQ
        &&& 0 <= self.filter_resonance <= ONE
        &&& -ONE <= self.filter_env_mod_gain <= ONE
        &&& 0 <= self.filter_key_track <= ONE
        &&& 0 <= self.filter_velocity_mod <= ONE
        &&& 0 <= self.amp_env_attack <= 32 * ONE
        &&& 0 <= self.amp_env_decay <= 32 * ONE
        &&& 0 <= self.amp_env_sustain <= ONE
        &&& 0 <= self.amp_env_release <= 32 * ONE
        &&& 0 <= self.filter_env_attack <= 32 * ONE
        &&& 0 <= self.filter_env_decay <= 32 * ONE
        &&& 0 <= self.filter_env_sustain <= ONE
        &&& 0 <= self.filter_env_release <= 32 * ONE
        &&& 0 <= self.master_gain <= 2 * ONE
        &&& 0 <= self.unison_detune <= 2 * ONE
        &&& 0 <= self.unison_stereo_spread <= ONE
        &&& 0 <= self.portamento <= 4000 * ONE
        &&& 1 <= self.unison_voices <= MAX_UNISON
    }
}

/// One voice of the pool.
pub struct Voice {
    pub sample_rate: i64,
    pub id: i32,
    /// Portamento target note.
    pub target_note: u8,
    /// Currently glided note, in Q32.32 semitones.
    pub note: i64,
    /// Pitch bend in Q32.32 semitones.
    pub bend: i64,
    pub velocity: u8,
    /// Timestamp of the note-on that claimed this voice.
    pub start_time: u64,
    /// Active unison count, `1..=MAX_UNISON`.
    pub unison: usize,
    pub osc1: Vec<Oscillator>,
    pub osc2: Vec<Oscillator>,
    pub lfo: Oscillator,
    pub filter: (HuovilainenMoog, HuovilainenMoog),
    pub amp_envelope: AdsrEnvelope,
    pub filter_envelope: AdsrEnvelope,
}

impl Voice {
    pub open spec fn wf(self) -> bool {
        &&& ONE <= self.sample_rate <= 0x40000000000000
        &&& self.target_note <= 127
        &&& self.velocity <= 127
        &&& 0 <= self.note <= 127 * ONE
        &&& -2 * ONE <= self.bend <= 2 * ONE
        &&& 1 <= self.unison <= MAX_UNISON
        &&& self.osc1.len() == MAX_UNISON
        &&& self.osc2.len() == MAX_UNISON
        &&& forall|v: int| 0 <= v < MAX_UNISON ==> (#[trigger] self.osc1[v]).wf()
        &&& forall|v: int| 0 <= v < MAX_UNISON ==> (#[trigger] self.osc2[v]).wf()
        &&& self.lfo.wf()
        &&& self.filter.0.wf()
        &&& self.filter.1.wf()
        &&& self.amp_envelope.wf()
        &&& self.filter_envelope.wf()
    }

    pub fn new(id: i32, sample_rate: i64) -> (v: Voice)
        requires
            ONE <= sample_rate <= 0x40000000000000,
        ensures
            v.wf(),
            v.id == id,
            v.sample_rate == sample_rate,
            v.amp_envelope.state is Idle,
            v.start_time == 0,
    {
        let mut osc1: Vec<Oscillator> = Vec::new();
        let mut osc2: Vec<Oscillator> = Vec::new();
        let mut i: usize = 0;
        while i < 7
            invariant
                i <= 7,
                osc1.len() == i,
                osc2.len() == i,
                forall|k: int| 0 <= k < i ==> (#[trigger] osc1[k]).wf(),
                forall|k: int| 0 <= k < i ==> (#[trigger] osc2[k]).wf(),
            decreases 7 - i,
        {
            osc1.push(Oscillator::new());
            osc2.push(Oscillator::new());
            i = i + 1;
        }
        Voice {
            sample_rate,
            id,
            target_note: 0,
            note: 0,
            bend: 0,
            velocity: 0,
            start_time: 0,
            unison: 1,
            osc1,
            osc2,
            lfo: Oscillator::new(),
            filter: (HuovilainenMoog::new(), HuovilainenMoog::new()),
            amp_envelope: AdsrEnvelope::new(id),
            filter_envelope: AdsrEnvelope::new(id),
        }
    }

    /// Claim this voice for a new note: seed the first oscillator bank's
    /// phases, adopt the unison count, velocity and timestamp, optionally
    /// retrigger the LFO, and gate both envelopes on.
    pub fn note_on(
        &mut self,
        note: u8,
        velocity: u8,
        time: u64,
        unison: usize,
        lfo_trig: bool,
        start_phases: &Vec<i64>,
    )
        requires
            old(self).wf(),
            note <= 127,
            velocity <= 127,
            1 <= unison <= MAX_UNISON,
            start_phases.len() == MAX_UNISON,
            forall|i: int| 0 <= i < MAX_UNISON ==> 0 <= #[trigger] start_phases[i] < ONE,
        ensures
            final(self).wf(),
            final(self).target_note == note,
            final(self).velocity == velocity,
            final(self).start_time == time,
            final(self).unison == unison,
            final(self).amp_envelope.state is Attacking,
            final(self).filter_envelope.state is Attacking,
            final(self).amp_envelope.gate_time == Some(time),
            final(self).amp_envelope.level == old(self).amp_envelope.level,
            final(self).note == old(self).note,
            final(self).id == old(self).id,
            final(self).sample_rate == old(self).sample_rate,
            final(self).bend == old(self).bend,
            final(self).osc2 == old(self).osc2,
            final(self).filter == old(self).filter,
            forall|v: int|
                0 <= v < 7 ==> #[trigger] final(self).osc1[v] == (Oscillator {
                    phase: start_phases[v],
                    ..old(self).osc1[v]
                }),
            lfo_trig ==> final(self).lfo.phase == 0,
            !lfo_trig ==> final(self).lfo == old(self).lfo,
    {
        let mut i: usize = 0;
        while i < 7
            invariant
                old(self).wf(),
                i <= 7,
                start_phases.len() == 7,
                self.osc1.len() == 7,
                forall|k: int| 0 <= k < 7 ==> (#[trigger] self.osc1[k]).wf(),
                forall|i2: int| 0 <= i2 < 7 ==> 0 <= #[trigger] start_phases[i2] < ONE,
                *self == (Voice { osc1: self.osc1, ..*old(self) }),
                forall|k: int|
                    0 <= k < i ==> #[trigger] self.osc1[k] == (Oscillator {
                        phase: start_phases[k],
                        ..old(self).osc1[k]
                    }),
                forall|k: int| i <= k < 7 ==> #[trigger] self.osc1[k] == old(self).osc1[k],
            decreases 7 - i,
        {
            let ghost pre = self.osc1@;
            let mut osc = self.osc1.remove(i);
            osc.set_phase(start_phases[i]);
            self.osc1.insert(i, osc);
            proof {
                assert(self.osc1@ =~= pre.update(i as int, self.osc1@[i as int]));
            }
            i = i + 1;
        }
        self.target_note = note;
        if lfo_trig {
            self.lfo.trig();
        }
        self.unison = unison;
        self.velocity = velocity;
        self.start_time = time;
        self.amp_envelope.gate_on(time);
        self.filter_envelope.gate_on(time);
    }

    /// Release the note: both envelopes move toward `Releasing`.
    pub fn note_off(&mut self)
        requires
            old(self).wf(),
        ensures
            final(self).wf(),
            *final(self) == (Voice {
                amp_envelope: env_after_gate_off(old(self).amp_envelope),
                filter_envelope: env_after_gate_off(old(self).filter_envelope),
                ..*old(self)
            }),
    {
        self.amp_envelope.gate_off();
        self.filter_envelope.gate_off();
    }

    /// A voice is playing while its amplitude envelope has not returned to
    /// idle.
    pub fn is_playing(&self) -> (r: bool)
        ensures
            r == !(self.amp_envelope.state is Idle),
    {
        !self.amp_envelope.is_idle()
    }

    /// Glide the current note one step toward the target and return the
    /// modulated semitone. With no portamento the jump is immediate; the
    /// glide factor is held within `[0, ONE]`, so the note always stays
    /// between its old value and the target.
    fn get_oscillator_semitone(&mut self, detune: i64, portamento: i64) -> (semi: i64)
        requires
            old(self).wf(),
            -400 * (ONE as int) <= detune <= 400 * (ONE as int),
            0 <= portamento <= 0x100000000000000,
        ensures
            final(self).wf(),
            *final(self) == (Voice { note: final(self).note, ..*old(self) }),
            0 <= final(self).note <= 127 * (ONE as int),
            semi == final(self).note + final(self).bend + detune,
            portamento <= 0 ==> final(self).note == (old(self).target_note as int) * (
            ONE as int),
            portamento > 0 && old(self).note <= (old(self).target_note as int) * (ONE as int)
                ==> old(self).note <= final(self).note <= (old(self).target_note as int) * (
            ONE as int),
            portamento > 0 && old(self).note >= (old(self).target_note as int) * (ONE as int)
                ==> (old(self).target_note as int) * (ONE as int) <= final(self).note <= old(
                self,
            ).note,
    {
        if portamento <= 0 {
            self.note = (self.target_note as i64) * ONE;
        } else {
            let diff = (self.target_note as i64) * ONE - self.note;
            let hundred_porta = if portamento > 0x51EB851EB851E {
                0x51EB851EB851E
            } else {
                portamento
            };
            let factor = if 100 * hundred_porta <= ONE {
                ONE
            } else {
                proof {
                    assert(one() <= (100 * (hundred_porta as int)) * 0x40000000int) by (
                    nonlinear_arith)
                        requires
                            100 * (hundred_porta as int) > one(),
                    ;
                    assert(0 <= one() * one() / (100 * (hundred_porta as int)) <= one()) by (
                    nonlinear_arith)
                        requires
                            100 * (hundred_porta as int) > one(),
                            one() == 4294967296,
                    ;
                }
                fixdiv(ONE, 100 * hundred_porta)
            };
            let step = fixmul(diff, factor);
            proof {
                let p = (diff as int) * (factor as int);
                assert((diff >= 0 ==> 0 <= p <= (diff as int) * one()) && (diff < 0 ==> (
                diff as int) * one() <= p <= 0)) by (nonlinear_arith)
                    requires
                        p == (diff as int) * (factor as int),
                        0 <= factor <= one(),
                        -127 * one() <= diff <= 127 * one(),
                        one() == 4294967296,
                ;
                crate::fixed::lemma_tdiv_approx(p);
            }
            self.note = self.note + step;
            if self.note < 0 {
                self.note = 0;
            }
            if self.note > 127 * ONE {
                self.note = 127 * ONE;
            }
        }
        self.note + self.bend + detune
    }

    /// The carrier frequency of one oscillator: the glided, bent and
    /// detuned semitone through the pitch table, scaled by the octave
    /// selector and held within the oscillator's working range.
    fn frequency(
        &mut self,
        table: &PitchTable,
        detune_semitones: i64,
        octave: i32,
        portamento: i64,
    ) -> (freq: i64)
        requires
            old(self).wf(),
            table.wf(),
            -2 <= octave <= 2,
            -400 * (ONE as int) <= detune_semitones <= 400 * (ONE as int),
            0 <= portamento <= 0x100000000000000,
        ensures
            final(self).wf(),
            *final(self) == (Voice { note: final(self).note, ..*old(self) }),
            0 <= freq <= 0x40000000000000,
    {
        let semitone = self.get_oscillator_semitone(detune_semitones, portamento);
        let base = table.midi_pitch_to_freq(semitone);
        let scaled: i64 = if octave == -2 {
            base / 4
        } else if octave == -1 {
            base / 2
        } else if octave == 0 {
            base
        } else if octave == 1 {
            if base > 0x20000000000000 {
                0x40000000000000
            } else {
                base * 2
            }
        } else {
            if base > 0x10000000000000 {
                0x40000000000000
            } else {
                base * 4
            }
        };
        clamp64(scaled, 0, 0x40000000000000)
    }


    /// Render one sub-block into the caller's stereo buffers.
    ///
    /// Per sample: glide the note, derive each unison carrier's frequency
    /// (including the LFO's pitch modulation on the first bank), sum the
    /// detuned copies under the stereo spread pattern, advance both
    /// envelopes one step, modulate the filter cutoff in semitone space
    /// over a fixed ten-octave range and clamp it to the audible band,
    /// drive the stereo filter pair, scale by the amplitude envelope and
    /// master gain, and add into the output — samples outside
    /// `[block_start, block_end)` are untouched, and samples inside only
    /// ever have a bounded contribution added, never overwritten.
    ///
    /// `env_dirty` asks the voice to re-derive its envelope coefficients
    /// from the parameter snapshot before rendering; the caller raises it
    /// at most once per actual parameter change.
    pub fn generate(
        &mut self,
        table: &PitchTable,
        params: &VoiceParams,
        env_dirty: bool,
        output_l: &mut Vec<i64>,
        output_r: &mut Vec<i64>,
        block_start: usize,
        block_end: usize,
    )
        requires
            old(self).wf(),
            table.wf(),
            params.wf(),
            block_start <= block_end,
            block_end <= old(output_l).len(),
            old(output_l).len() == old(output_r).len(),
            forall|k: int|
                0 <= k < old(output_l).len() ==> -0x100000000000000 <= #[trigger] old(
                    output_l,
                )[k] <= 0x100000000000000,
            forall|k: int|
                0 <= k < old(output_r).len() ==> -0x100000000000000 <= #[trigger] old(
                    output_r,
                )[k] <= 0x100000000000000,
        ensures
            final(self).wf(),
            final(self).id == old(self).id,
            final(self).sample_rate == old(self).sample_rate,
            final(self).target_note == old(self).target_note,
            final(self).velocity == old(self).velocity,
            final(self).start_time == old(self).start_time,
            final(self).unison == old(self).unison,
            final(self).bend == old(self).bend,
            final(output_l).len() == old(output_l).len(),
            final(output_r).len() == old(output_r).len(),
            forall|k: int|
                0 <= k < old(output_l).len() && !(block_start <= k < block_end) ==> #[trigger]
                final(output_l)[k] == old(output_l)[k],
            forall|k: int|
                0 <= k < old(output_r).len() && !(block_start <= k < block_end) ==> #[trigger]
                final(output_r)[k] == old(output_r)[k],
            forall|k: int|
                block_start <= k < block_end ==> old(output_l)[k] - VOICE_SAMPLE_MAX <= #[trigger]
                final(output_l)[k] <= old(output_l)[k] + VOICE_SAMPLE_MAX,
            forall|k: int|
                block_start <= k < block_end ==> old(output_r)[k] - VOICE_SAMPLE_MAX <= #[trigger]
                final(output_r)[k] <= old(output_r)[k] + VOICE_SAMPLE_MAX,
            !env_dirty ==> final(self).amp_envelope == crate::envelope::env_steps(
                old(self).amp_envelope,
                (block_end - block_start) as nat,
            ),
            !env_dirty ==> final(self).filter_envelope == crate::envelope::env_steps(
                old(self).filter_envelope,
                (block_end - block_start) as nat,
            ),
            env_dirty ==> final(self).amp_envelope == crate::envelope::env_steps(
                crate::envelope::env_with_params(
                    old(self).amp_envelope,
                    old(self).sample_rate as int,
                    params.amp_env_attack as int,
                    params.amp_env_decay as int,
                    params.amp_env_sustain as int,
                    params.amp_env_release as int,
                ),
                (block_end - block_start) as nat,
            ),
            env_dirty ==> final(self).filter_envelope == crate::envelope::env_steps(
                crate::envelope::env_with_params(
                    old(self).filter_envelope,
                    old(self).sample_rate as int,
                    params.filter_env_attack as int,
                    params.filter_env_decay as int,
                    params.filter_env_sustain as int,
                    params.filter_env_release as int,
                ),
                (block_end - block_start) as nat,
            ),
    {
        if env_dirty {
            self.amp_envelope.set_envelope_parameters(
                self.sample_rate,
                params.amp_env_attack,
                params.amp_env_decay,
                params.amp_env_sustain,
                params.amp_env_release,
            );
            self.filter_envelope.set_envelope_parameters(
                self.sample_rate,
                params.filter_env_attack,
                params.filter_env_decay,
                params.filter_env_sustain,
                params.filter_env_release,
            );
        }
        let porta: i64 = if params.poly_mode {
            0
        } else {
            let rate_factor = fixdiv(self.sample_rate, 44100 * ONE);
            proof {
                assert(0 <= fdiv(self.sample_rate as int, 44100 * one()) <= 256 * one()) by (
                nonlinear_arith)
                    requires
                        one() <= self.sample_rate <= 0x40000000000000,
                        fdiv(self.sample_rate as int, 44100 * one()) == (
                        self.sample_rate as int) * one() / (44100 * one()),
                        one() == 4294967296,
                ;
                lemma_fmul_bound(
                    params.portamento as int,
                    rate_factor as int,
                    4000 * one(),
                    256,
                );
            }
            let p = fixmul(params.portamento, rate_factor);
            if p < 0 {
                0
            } else {
                p
            }
        };
        let ghost env0_amp = self.amp_envelope;
        let ghost env0_filter = self.filter_envelope;
        let mut i: usize = block_start;
        while i < block_end
            invariant
                block_start <= i <= block_end,
                self.wf(),
                table.wf(),
                params.wf(),
                self.amp_envelope == crate::envelope::env_steps(
                    env0_amp,
                    (i - block_start) as nat,
                ),
                self.filter_envelope == crate::envelope::env_steps(
                    env0_filter,
                    (i - block_start) as nat,
                ),
                env0_amp == (if env_dirty {
                    crate::envelope::env_with_params(
                        old(self).amp_envelope,
                        old(self).sample_rate as int,
                        params.amp_env_attack as int,
                        params.amp_env_decay as int,
                        params.amp_env_sustain as int,
                        params.amp_env_release as int,
                    )
                } else {
                    old(self).amp_envelope
                }),
                env0_filter == (if env_dirty {
                    crate::envelope::env_with_params(
                        old(self).filter_envelope,
                        old(self).sample_rate as int,
                        params.filter_env_attack as int,
                        params.filter_env_decay as int,
                        params.filter_env_sustain as int,
                        params.filter_env_release as int,
                    )
                } else {
                    old(self).filter_envelope
                }),
                0 <= porta <= 0x100000000000000,
                self.id == old(self).id,
                self.sample_rate == old(self).sample_rate,
                self.target_note == old(self).target_note,
                self.velocity == old(self).velocity,
                self.start_time == old(self).start_time,
                self.unison == old(self).unison,
                self.bend == old(self).bend,
                block_end <= output_l.len(),
                block_end <= output_r.len(),
                output_l.len() == old(output_l).len(),
                output_r.len() == old(output_r).len(),
                forall|k: int|
                    0 <= k < old(output_l).len() && !(block_start <= k < i) ==> #[trigger]
                    output_l[k] == old(output_l)[k],
                forall|k: int|
                    0 <= k < old(output_r).len() && !(block_start <= k < i) ==> #[trigger]
                    output_r[k] == old(output_r)[k],
                forall|k: int|
                    block_start <= k < i ==> old(output_l)[k] - VOICE_SAMPLE_MAX <= #[trigger]
                    output_l[k] <= old(output_l)[k] + VOICE_SAMPLE_MAX,
                forall|k: int|
                    block_start <= k < i ==> old(output_r)[k] - VOICE_SAMPLE_MAX <= #[trigger]
                    output_r[k] <= old(output_r)[k] + VOICE_SAMPLE_MAX,
                forall|k: int|
                    0 <= k < old(output_l).len() ==> -0x100000000000000 <= #[trigger] old(
                        output_l,
                    )[k] <= 0x100000000000000,
                forall|k: int|
                    0 <= k < old(output_r).len() ==> -0x100000000000000 <= #[trigger] old(
                        output_r,
                    )[k] <= 0x100000000000000,
            decreases block_end - i,
        {
            proof {
                crate::envelope::lemma_env_steps_snoc(env0_amp, (i - block_start) as nat);
                crate::envelope::lemma_env_steps_snoc(env0_filter, (i - block_start) as nat);
            }
            let (vl, vr) = self.render_sample(table, params, porta);
            let cur_l = output_l[i];
            output_l.set(i, cur_l + vl);
            let cur_r = output_r[i];
            output_r.set(i, cur_r + vr);
            i = i + 1;
        }
    }

    /// Compute one stereo sample of this voice (without touching the
    /// output buffers): the full per-sample modulation, oscillator,
    /// envelope and filter pipeline.
    #[verifier::rlimit(100)]
    #[verifier::spinoff_prover]
    fn render_sample(&mut self, table: &PitchTable, params: &VoiceParams, porta: i64) -> (s: (
        i64,
        i64,
    ))
        requires
            old(self).wf(),
            table.wf(),
            params.wf(),
            0 <= porta <= 0x100000000000000,
        ensures
            final(self).wf(),
            final(self).id == old(self).id,
            final(self).sample_rate == old(self).sample_rate,
            final(self).target_note == old(self).target_note,
            final(self).velocity == old(self).velocity,
            final(self).start_time == old(self).start_time,
            final(self).unison == old(self).unison,
            final(self).bend == old(self).bend,
            final(self).amp_envelope == crate::envelope::env_step(old(self).amp_envelope),
            final(self).filter_envelope == crate::envelope::env_step(old(self).filter_envelope),
            -VOICE_SAMPLE_MAX <= s.0 <= VOICE_SAMPLE_MAX,
            -VOICE_SAMPLE_MAX <= s.1 <= VOICE_SAMPLE_MAX,
    {
        let glide_semi = self.get_oscillator_semitone(0, porta);
        let lfo_val = self.lfo.generate(
            params.lfo_waveform,
            params.lfo_freq,
            ONE,
            2147483648,
            self.sample_rate,
        );
        let osc1_lfo_detune = fixmul(params.lfo_osc1_detune_mod_depth, lfo_val);
        proof {
            lemma_fmul_bound(
                params.lfo_osc1_detune_mod_depth as int,
                lfo_val as int,
                16 * one(),
                20,
            );
        }
        let amp = self.note_amplitude();
        let osc1_detune = params.osc1_detune + osc1_lfo_detune;
        let osc1_amp = crate::fixed::mul_unit(amp, params.osc1_level);
        let osc2_amp = crate::fixed::mul_unit(amp, params.osc2_level);
        let (osc1_l, osc1_r) = self.render_bank(
            table,
            params,
            true,
            osc1_detune,
            osc1_amp,
            porta,
        );
        let (osc2_l, osc2_r) = self.render_bank(
            table,
            params,
            false,
            params.osc2_detune,
            osc2_amp,
            porta,
        );
        let amp_env = self.amp_envelope.next();
        let filter_env = self.filter_envelope.next();
        let sample_l = osc1_l + osc2_l;
        let sample_r = osc1_r + osc2_r;
        let modulated_cutoff = cutoff_for_sample(
            table,
            params,
            glide_semi,
            lfo_val,
            filter_env,
            amp,
        );
        let filtered_l = self.filter.0.process(
            sample_l,
            self.sample_rate,
            modulated_cutoff,
            params.filter_resonance,
        );
        let filtered_r = self.filter.1.process(
            sample_r,
            self.sample_rate,
            modulated_cutoff,
            params.filter_resonance,
        );
        let vl = scale_output(filtered_l, amp_env, params.master_gain);
        let vr = scale_output(filtered_r, amp_env, params.master_gain);
        (vl, vr)
    }

    /// Sum one unison bank's detuned oscillator copies into a stereo pair,
    /// applying the per-voice-count detune and stereo spread patterns.
    #[verifier::rlimit(100)]
    #[verifier::spinoff_prover]
    fn render_bank(
        &mut self,
        table: &PitchTable,
        params: &VoiceParams,
        first_bank: bool,
        detune: i64,
        amplitude: i64,
        porta: i64,
    ) -> (s: (i64, i64))
        requires
            old(self).wf(),
            table.wf(),
            params.wf(),
            -400 * (ONE as int) + 6 * (ONE as int) <= detune <= 400 * (ONE as int) - 6 * (
            ONE as int),
            0 <= amplitude <= ONE,
            0 <= porta <= 0x100000000000000,
        ensures
            final(self).wf(),
            final(self).id == old(self).id,
            final(self).sample_rate == old(self).sample_rate,
            final(self).target_note == old(self).target_note,
            final(self).velocity == old(self).velocity,
            final(self).start_time == old(self).start_time,
            final(self).unison == old(self).unison,
            final(self).bend == old(self).bend,
            final(self).amp_envelope == old(self).amp_envelope,
            final(self).filter_envelope == old(self).filter_envelope,
            -450 * (ONE as int) <= s.0 <= 450 * (ONE as int),
            -450 * (ONE as int) <= s.1 <= 450 * (ONE as int),
    {
        let nvoices = self.unison;
        let waveform = if first_bank {
            params.osc1_waveform
        } else {
            params.osc2_waveform
        };
        let octave = if first_bank {
            params.osc1_octave
        } else {
            params.osc2_octave
        };
        let pw = if first_bank {
            params.osc1_pulsewidth
        } else {
            params.osc2_pulsewidth
        };
        let mut acc_l: i64 = 0;
        let mut acc_r: i64 = 0;
        let mut v: usize = 0;
        while v < nvoices
            invariant
                v <= nvoices,
                1 <= nvoices <= 7,
                nvoices == self.unison,
                self.wf(),
                table.wf(),
                params.wf(),
                0 < pw < ONE,
                -2 <= octave <= 2,
                -394 * (ONE as int) <= detune <= 394 * (ONE as int),
                0 <= amplitude <= ONE,
                0 <= porta <= 0x100000000000000,
                self.id == old(self).id,
                self.sample_rate == old(self).sample_rate,
                self.target_note == old(self).target_note,
                self.velocity == old(self).velocity,
                self.start_time == old(self).start_time,
                self.bend == old(self).bend,
                self.amp_envelope == old(self).amp_envelope,
                self.filter_envelope == old(self).filter_envelope,
                -(v as int) * 61 * (ONE as int) <= acc_l <= (v as int) * 61 * (ONE as int),
                -(v as int) * 61 * (ONE as int) <= acc_r <= (v as int) * 61 * (ONE as int),
            decreases nvoices - v,
        {
            let pat = detune_pattern(nvoices, v);
            let pat_detune = fixmul(pat, params.unison_detune);
            proof {
                lemma_fmul_bound(pat as int, params.unison_detune as int, one(), 2);
            }
            let f = self.frequency(table, detune + pat_detune, octave, porta);
            let mut osc = if first_bank {
                self.osc1.remove(v)
            } else {
                self.osc2.remove(v)
            };
            let mono = osc.generate(waveform, f, amplitude, pw, self.sample_rate);
            if first_bank {
                self.osc1.insert(v, osc);
            } else {
                self.osc2.insert(v, osc);
            }
            proof {
                assert(-20 * one() <= mono <= 20 * one());
            }
            if nvoices == 1 {
                acc_l = acc_l + mono;
                acc_r = acc_r + mono;
            } else {
                let sp = spread_pattern(nvoices, v);
                let spread = fixmul(params.unison_stereo_spread, sp);
                proof {
                    lemma_fmul_bound(params.unison_stereo_spread as int, sp as int, one(), 1);
                }
                let left_amp = ONE - spread;
                let right_amp = ONE + spread;
                let ml = fixmul(mono, left_amp);
                let mr = fixmul(mono, right_amp);
                proof {
                    lemma_fmul_bound(mono as int, left_amp as int, 20 * one(), 3);
                    lemma_fmul_bound(mono as int, right_amp as int, 20 * one(), 3);
                }
                acc_l = acc_l + ml;
                acc_r = acc_r + mr;
            }
            proof {
                assert(-((v + 1) as int) * 61 * (ONE as int) <= acc_l <= ((v + 1) as int) * 61 * (
                ONE as int) && -((v + 1) as int) * 61 * (ONE as int) <= acc_r <= ((
                v + 1) as int) * 61 * (ONE as int)) by (nonlinear_arith)
                    requires
                        -(v as int) * 61 * (ONE as int) - 61 * (ONE as int) <= acc_l <= (
                        v as int) * 61 * (ONE as int) + 61 * (ONE as int),
                        -(v as int) * 61 * (ONE as int) - 61 * (ONE as int) <= acc_r <= (
                        v as int) * 61 * (ONE as int) + 61 * (ONE as int),
                        ONE == 4294967296,
                        0 <= v < 7,
                ;
            }
            v = v + 1;
        }
        proof {
            assert(-450 * (ONE as int) <= acc_l <= 450 * (ONE as int) && -450 * (ONE as int)
                <= acc_r <= 450 * (ONE as int)) by (nonlinear_arith)
                requires
                    -(nvoices as int) * 61 * (ONE as int) <= acc_l <= (nvoices as int) * 61 * (
                    ONE as int),
                    -(nvoices as int) * 61 * (ONE as int) <= acc_r <= (nvoices as int) * 61 * (
                    ONE as int),
                    1 <= nvoices <= 7,
                    ONE == 4294967296,
            ;
        }
        (acc_l, acc_r)
    }

    /// The note's amplitude from its MIDI velocity.
    fn note_amplitude(&self) -> (amp: i64)
        requires
            self.wf(),
        ensures
            0 <= amp <= ONE,
            amp == crate::midi::amplitude_of_velocity(self.velocity as int),
    {
        midi_velocity_to_amplitude(self.velocity)
    }
}


/// The filter cutoff one sample sees: key tracking in semitone space plus
/// the fixed ten-octave modulation range (envelope, LFO and velocity),
/// converted back to Hz and clamped to the audible band.
fn cutoff_for_sample(
    table: &PitchTable,
    params: &VoiceParams,
    glide_semi: i64,
    lfo_val: i64,
    filter_env: i64,
    amp: i64,
) -> (c: i64)
    requires
        table.wf(),
        params.wf(),
        -200 * (ONE as int) <= glide_semi <= 200 * (ONE as int),
        -20 * (ONE as int) <= lfo_val <= 20 * (ONE as int),
        0 <= filter_env <= ONE,
        0 <= amp <= ONE,
    ensures
        MIN_FREQ <= c <= MAX_FREQ,
{
    let base_cutoff_semitone = freq_to_midi_pitch(params.filter_cutoff);
    let tracked_offset = fixmul(glide_semi - KEYTRACK_PIVOT_NOTE, params.filter_key_track);
    proof {
        lemma_fmul_bound(
            (glide_semi - KEYTRACK_PIVOT_NOTE) as int,
            params.filter_key_track as int,
            248 * one(),
            1,
        );
    }
    let cutoff_semitone = base_cutoff_semitone + tracked_offset;
    let env_term = fixmul(filter_env, params.filter_env_mod_gain);
    let lfo_term = fixmul(lfo_val, params.lfo_filter_mod_depth);
    let vel_term = fixmul(amp, params.filter_velocity_mod);
    proof {
        lemma_fmul_bound(filter_env as int, params.filter_env_mod_gain as int, one(), 1);
        lemma_fmul_bound(lfo_val as int, params.lfo_filter_mod_depth as int, 20 * one(), 1);
        lemma_fmul_bound(amp as int, params.filter_velocity_mod as int, one(), 1);
    }
    let cutoff_mod_semitones = (env_term + lfo_term + vel_term) * 120;
    clamp64(table.midi_pitch_to_freq(cutoff_semitone + cutoff_mod_semitones), MIN_FREQ, MAX_FREQ)
}

/// Scale a filtered sample by the amplitude envelope and master gain.
fn scale_output(filtered: i64, amp_env: i64, master: i64) -> (r: i64)
    requires
        -64 * (ONE as int) <= filtered <= 64 * (ONE as int),
        0 <= amp_env <= ONE,
        0 <= master <= 2 * ONE,
    ensures
        -VOICE_SAMPLE_MAX <= r <= VOICE_SAMPLE_MAX,
{
    let e = fixmul(filtered, amp_env);
    proof {
        lemma_fmul_bound(filtered as int, amp_env as int, 64 * one(), 1);
    }
    let r = fixmul(e, master);
    proof {
        lemma_fmul_bound(e as int, master as int, 64 * one() + 1, 2);
    }
    r
}

/// What `gate_off` leaves of an envelope.
pub open spec fn env_after_gate_off(e: AdsrEnvelope) -> AdsrEnvelope {
    AdsrEnvelope {
        state: if e.state is Attacking || e.state is Decaying || e.state is Sustaining {
            crate::envelope::State::Releasing
        } else {
            e.state
        },
        ..e
    }
}

} // verus!
