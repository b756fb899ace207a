//! A polyphonic subtractive synthesiser core in Q32.32 fixed point.
//!
//! [`Synth`] owns a fixed pool of [`voice::Voice`]s created once at
//! initialisation. Note events are dispatched onto the pool by the
//! allocation policy of [`Synth::note_on`] (first idle voice, else the
//! oldest decaying voice, else the oldest voice overall — proved against
//! the recursive scan functions below), and rendering splits each block at
//! event boundaries so onsets land on their exact sample.

pub mod envelope;
pub mod filter;
pub mod fixed;
pub mod huovilainen;
pub mod midi;
pub mod oscillator;
pub mod parameters;
pub mod voice;

use rand_core::Rng;
use vstd::prelude::*;

use crate::fixed::ONE;
use crate::midi::PitchTable;
use crate::voice::{Voice, VoiceParams};

verus! {

/// Number of voices in the polyphonic pool.
pub const NUM_VOICES: u32 = 16;

/// Largest sub-block a render call will process at once.
pub const MAX_BLOCK_SIZE: usize = 64;

#[verifier::external_type_specification]
#[verifier::external_body]
pub struct ExPcg32(rand_pcg::Pcg32);

/// Relies on `rand_pcg::Pcg32::new`: builds the documented PCG-XSH-RR
/// generator from a 64-bit state and stream selector.
#[verifier::external_body]
fn prng_new(state: u64, stream: u64) -> rand_pcg::Pcg32 {
    rand_pcg::Pcg32::new(state, stream)
}

/// Relies on `rand_core::Rng::next_u32` on `Pcg32`: yields the generator's
/// next word; nothing is assumed about which `u32` comes back.
#[verifier::external_body]
fn prng_next(rng: &mut rand_pcg::Pcg32) -> u32 {
    rng.next_u32()
}

/// A timestamped note event, pre-sorted by timing within a block. The
/// pitch-bend value arrives as the two 7-bit data bytes of the wire
/// format.
#[derive(Clone, Copy, Debug, PartialEq, Eq, Structural)]
pub enum NoteEvent {
    NoteOn { timing: usize, note: u8, velocity: u8 },
    NoteOff { timing: usize, note: u8 },
    PitchBend { timing: usize, d1: u8, d2: u8 },
}

pub open spec fn is_idle_voice(v: Voice) -> bool {
    v.amp_envelope.state is Idle
}

pub open spec fn is_decaying_voice(v: Voice) -> bool {
    v.amp_envelope.state is Decaying
}

/// The least index in `[0, i)` of an idle voice, or `vs.len()` if none:
/// the scan `note_on` performs.
pub open spec fn first_idle_prefix(vs: Seq<Voice>, i: int) -> int
    decreases i,
{
    if i <= 0 {
        vs.len() as int
    } else {
        let p = first_idle_prefix(vs, i - 1);
        if p < vs.len() {
            p
        } else if is_idle_voice(vs[i - 1]) {
            i - 1
        } else {
            vs.len() as int
        }
    }
}

/// The first index in `[0, i)` holding the smallest start time among
/// decaying voices, or `vs.len()` if none is decaying.
pub open spec fn oldest_decaying_prefix(vs: Seq<Voice>, i: int) -> int
    decreases i,
{
    if i <= 0 {
        vs.len() as int
    } else {
        let p = oldest_decaying_prefix(vs, i - 1);
        if is_decaying_voice(vs[i - 1]) && (p >= vs.len() || vs[i - 1].start_time
            < vs[p].start_time) {
            i - 1
        } else {
            p
        }
    }
}

/// The first index in `[0, i)` holding the smallest start time overall
/// (0 when the prefix is empty).
pub open spec fn oldest_prefix(vs: Seq<Voice>, i: int) -> int
    decreases i,
{
    if i <= 1 {
        0
    } else {
        let p = oldest_prefix(vs, i - 1);
        if vs[i - 1].start_time < vs[p].start_time {
            i - 1
        } else {
            p
        }
    }
}

/// The voice `note_on` claims: voice 0 in monophonic mode; else the first
/// idle voice; else the oldest decaying voice; else the oldest overall.
pub open spec fn chosen_voice(vs: Seq<Voice>, poly: bool) -> int {
    if !poly {
        0
    } else if first_idle_prefix(vs, vs.len() as int) < vs.len() {
        first_idle_prefix(vs, vs.len() as int)
    } else if oldest_decaying_prefix(vs, vs.len() as int) < vs.len() {
        oldest_decaying_prefix(vs, vs.len() as int)
    } else {
        oldest_prefix(vs, vs.len() as int)
    }
}

/// Every voice of the pool idle.
pub open spec fn pool_idle(vs: Seq<Voice>) -> bool {
    forall|i: int| 0 <= i < vs.len() ==> is_idle_voice(#[trigger] vs[i])
}

/// How a claimed voice relates to its old self after `note_on`.
pub open spec fn voice_claimed(
    old_v: Voice,
    new_v: Voice,
    note: u8,
    velocity: u8,
    time: u64,
    unison: int,
) -> bool {
    &&& new_v.target_note == note
    &&& new_v.velocity == velocity
    &&& new_v.start_time == time
    &&& new_v.unison == unison
    &&& new_v.amp_envelope.state is Attacking
    &&& new_v.filter_envelope.state is Attacking
    &&& new_v.amp_envelope.gate_time == Some(time)
    &&& new_v.amp_envelope.level == old_v.amp_envelope.level
    &&& new_v.id == old_v.id
    &&& new_v.note == old_v.note
}

/// The synthesiser: the fixed voice pool, the parameter snapshot it
/// renders against, the per-voice envelope-recompute bitmask, and the
/// immutable pitch tables.
pub struct Synth {
    pub params: VoiceParams,
    pub prng: rand_pcg::Pcg32,
    pub voices: Vec<Voice>,
    pub time: u64,
    pub env_chg: u16,
    pub table: PitchTable,
    pub sample_rate: i64,
}

impl Synth {
    pub open spec fn wf(self) -> bool {
        &&& self.voices.len() == NUM_VOICES
        &&& forall|i: int| 0 <= i < NUM_VOICES ==> (#[trigger] self.voices[i]).wf()
        &&& forall|i: int| 0 <= i < NUM_VOICES ==> (#[trigger] self.voices[i]).id == i
        &&& self.params.wf()
        &&& 1 <= self.params.unison_voices <= crate::voice::MAX_UNISON
        &&& self.table.wf()
        &&& ONE <= self.sample_rate <= 0x40000000000000
        &&& forall|i: int|
            0 <= i < NUM_VOICES ==> (#[trigger] self.voices[i]).sample_rate == self.sample_rate
    }

    pub fn new(sample_rate: i64, params: VoiceParams) -> (s: Synth)
        requires
            ONE <= sample_rate <= 0x40000000000000,
            params.wf(),
            1 <= params.unison_voices <= crate::voice::MAX_UNISON,
        ensures
            s.wf(),
            forall|i: int| 0 <= i < NUM_VOICES ==> is_idle_voice(#[trigger] s.voices[i]),
            s.env_chg == 0xFFFFu16,
            s.sample_rate == sample_rate,
            s.params == params,
    {
        let mut voices: Vec<Voice> = Vec::new();
        let mut i: usize = 0;
        while i < 16
            invariant
                i <= 16,
                voices.len() == i,
                ONE <= sample_rate <= 0x40000000000000,
                forall|k: int| 0 <= k < i ==> (#[trigger] voices[k]).wf(),
                forall|k: int| 0 <= k < i ==> (#[trigger] voices[k]).id == k,
                forall|k: int| 0 <= k < i ==> is_idle_voice(#[trigger] voices[k]),
                forall|k: int| 0 <= k < i ==> (#[trigger] voices[k]).sample_rate == sample_rate,
            decreases 16 - i,
        {
            voices.push(Voice::new(i as i32, sample_rate));
            i = i + 1;
        }
        Synth {
            params,
            prng: prng_new(111, 333),
            voices,
            time: 0,
            env_chg: 0xFFFF,
            table: PitchTable::new(),
            sample_rate,
        }
    }

    /// Replace the parameter snapshot the pool renders against.
    pub fn set_params(&mut self, params: VoiceParams)
        requires
            old(self).wf(),
            params.wf(),
            1 <= params.unison_voices <= crate::voice::MAX_UNISON,
        ensures
            final(self).wf(),
            *final(self) == (Synth { params, ..*old(self) }),
    {
        self.params = params;
    }

    /// Record that an envelope rate or sustain parameter changed: every
    /// voice re-derives its coefficients the next time it renders.
    pub fn mark_env_changed(&mut self)
        requires
            old(self).wf(),
        ensures
            final(self).wf(),
            *final(self) == (Synth { env_chg: 0xFFFFu16, ..*old(self) }),
    {
        self.env_chg = 0xFFFF;
    }

    /// Reset the phase-seeding generator to its fixed seed.
    pub fn reset(&mut self)
        requires
            old(self).wf(),
        ensures
            final(self).wf(),
            final(self).voices == old(self).voices,
            final(self).params == old(self).params,
            final(self).env_chg == old(self).env_chg,
            final(self).sample_rate == old(self).sample_rate,
    {
        self.prng = prng_new(111, 333);
    }

    /// Seven oscillator start phases from the seeded generator. Whatever
    /// words come back, every phase lands in `[0, ONE)`.
    fn draw_start_phases(&mut self) -> (phases: Vec<i64>)
        ensures
            phases.len() == crate::voice::MAX_UNISON,
            forall|i: int| 0 <= i < phases.len() ==> 0 <= #[trigger] phases[i] < ONE,
            final(self).voices == old(self).voices,
            final(self).params == old(self).params,
            final(self).env_chg == old(self).env_chg,
            final(self).sample_rate == old(self).sample_rate,
            final(self).table == old(self).table,
            final(self).time == old(self).time,
    {
        let mut phases: Vec<i64> = Vec::new();
        let mut i: usize = 0;
        while i < 7
            invariant
                i <= 7,
                phases.len() == i,
                forall|k: int| 0 <= k < i ==> 0 <= #[trigger] phases[k] < ONE,
                self.voices == old(self).voices,
                self.params == old(self).params,
                self.env_chg == old(self).env_chg,
                self.sample_rate == old(self).sample_rate,
                self.table == old(self).table,
                self.time == old(self).time,
            decreases 7 - i,
        {
            let w = prng_next(&mut self.prng);
            phases.push(w as i64);
            i = i + 1;
        }
        phases
    }

    /// Dispatch a note-on onto the pool. In monophonic mode voice 0 is
    /// always retriggered; otherwise the first idle voice is claimed, and
    /// with none idle the oldest decaying voice is stolen in preference to
    /// the oldest voice overall. Exactly the chosen voice changes.
    pub fn note_on(&mut self, note: u8, velocity: u8, time: u64)
        requires
            old(self).wf(),
            note <= 127,
            velocity <= 127,
        ensures
            final(self).wf(),
            final(self).voices.len() == old(self).voices.len(),
            final(self).params == old(self).params,
            final(self).table == old(self).table,
            final(self).sample_rate == old(self).sample_rate,
            final(self).env_chg == old(self).env_chg,
            final(self).time == old(self).time,
            ({
                let vs = old(self).voices@;
                let c = chosen_voice(vs, old(self).params.poly_mode);
                &&& 0 <= c < vs.len()
                &&& forall|j: int|
                    0 <= j < vs.len() && j != c ==> #[trigger] final(self).voices[j] == vs[j]
                &&& voice_claimed(
                    vs[c],
                    final(self).voices[c],
                    note,
                    velocity,
                    time,
                    old(self).params.unison_voices as int,
                )
            }),
    {
        let unison = self.params.unison_voices;
        let lfo_trig = self.params.lfo_key_trig;
        let phases = self.draw_start_phases();
        let ghost vs = self.voices@;
        if !self.params.poly_mode {
            let mut v0 = self.voices.remove(0);
            v0.note_on(note, velocity, time, unison, lfo_trig, &phases);
            self.voices.insert(0, v0);
            proof {
                assert(self.voices@ =~= vs.update(0, self.voices@[0]));
            }
            return ;
        }
        let mut oldest_playing_voice: usize = 0;
        let mut oldest_decaying_voice: usize = 16;
        let mut i: usize = 0;
        while i < 16
            invariant
                i <= 16,
                self.wf(),
                vs == self.voices@,
                vs == old(self).voices@,
                self.params == old(self).params,
                self.table == old(self).table,
                self.sample_rate == old(self).sample_rate,
                self.env_chg == old(self).env_chg,
                self.time == old(self).time,
                old(self).params.poly_mode,
                unison == old(self).params.unison_voices,
                vs.len() == 16,
                note <= 127,
                velocity <= 127,
                1 <= unison <= crate::voice::MAX_UNISON,
                phases.len() == crate::voice::MAX_UNISON,
                forall|k: int| 0 <= k < phases.len() ==> 0 <= #[trigger] phases[k] < ONE,
                first_idle_prefix(vs, i as int) == vs.len(),
                oldest_decaying_voice as int == oldest_decaying_prefix(vs, i as int),
                oldest_playing_voice as int == oldest_prefix(vs, i as int),
                oldest_playing_voice < 16,
                oldest_decaying_voice <= 16,
            decreases 16 - i,
        {
            if self.voices[i].amp_envelope.state == crate::envelope::State::Idle {
                proof {
                    lemma_first_idle_found(vs, i as int);
                }
                let mut v = self.voices.remove(i);
                v.note_on(note, velocity, time, unison, lfo_trig, &phases);
                self.voices.insert(i, v);
                proof {
                    assert(self.voices@ =~= vs.update(i as int, self.voices@[i as int]));
                }
                return ;
            }
            if self.voices[i].amp_envelope.state == crate::envelope::State::Decaying && (
            oldest_decaying_voice >= 16 || self.voices[i].start_time
                < self.voices[oldest_decaying_voice].start_time) {
                oldest_decaying_voice = i;
            }
            if i > 0 && self.voices[i].start_time < self.voices[oldest_playing_voice].start_time {
                oldest_playing_voice = i;
            }
            i = i + 1;
        }
        let steal: usize = if oldest_decaying_voice < 16 {
            oldest_decaying_voice
        } else {
            oldest_playing_voice
        };
        let mut v = self.voices.remove(steal);
        v.note_on(note, velocity, time, unison, lfo_trig, &phases);
        self.voices.insert(steal, v);
        proof {
            assert(self.voices@ =~= vs.update(steal as int, self.voices@[steal as int]));
        }
    }


    /// Test and clear this voice's envelope-recompute bit: true exactly
    /// when an envelope parameter changed since the voice last rendered,
    /// and at most once per change.
    pub fn take_env_dirty(&mut self, id: usize) -> (dirty: bool)
        requires
            old(self).wf(),
            id < 16,
        ensures
            final(self).wf(),
            *final(self) == (Synth { env_chg: final(self).env_chg, ..*old(self) }),
            final(self).env_chg == old(self).env_chg & !(1u16 << (id as u16)),
            dirty == (old(self).env_chg & (1u16 << (id as u16)) != 0),
    {
        let bit: u16 = 1u16 << (id as u16);
        let dirty = self.env_chg & bit != 0;
        self.env_chg = self.env_chg & !bit;
        dirty
    }

    /// Render one block of audio. The block is subdivided at each event
    /// boundary (bounded by the remaining samples, the next event's offset
    /// and `MAX_BLOCK_SIZE`), so note onsets and releases land on their
    /// exact sample; events at or before a sub-block's start are applied
    /// before it renders. Each sub-block is zeroed, then every playing
    /// voice adds its contribution, so the final block holds at most the
    /// pool's bounded sum. Out-of-range note or velocity bytes clamp to
    /// the MIDI range.
    pub fn process(
        &mut self,
        events: &Vec<NoteEvent>,
        time: u64,
        output_l: &mut Vec<i64>,
        output_r: &mut Vec<i64>,
    )
        requires
            old(self).wf(),
            old(output_l).len() == old(output_r).len(),
            forall|k: int|
                0 <= k < old(output_l).len() ==> -0x100000000000000 <= #[trigger] old(
                    output_l,
                )[k] <= 0x100000000000000,
            forall|k: int|
                0 <= k < old(output_r).len() ==> -0x100000000000000 <= #[trigger] old(
                    output_r,
                )[k] <= 0x100000000000000,
        ensures
            final(self).wf(),
            final(output_l).len() == old(output_l).len(),
            final(output_r).len() == old(output_r).len(),
            forall|k: int|
                0 <= k < old(output_l).len() ==> -16 * (crate::voice::VOICE_SAMPLE_MAX as int)
                    <= #[trigger] final(output_l)[k] <= 16 * (
                crate::voice::VOICE_SAMPLE_MAX as int),
            forall|k: int|
                0 <= k < old(output_r).len() ==> -16 * (crate::voice::VOICE_SAMPLE_MAX as int)
                    <= #[trigger] final(output_r)[k] <= 16 * (
                crate::voice::VOICE_SAMPLE_MAX as int),
            events.len() == 0 && pool_idle(old(self).voices@) ==> forall|k: int|
                0 <= k < old(output_l).len() ==> #[trigger] final(output_l)[k] == 0,
            events.len() == 0 && pool_idle(old(self).voices@) ==> forall|k: int|
                0 <= k < old(output_r).len() ==> #[trigger] final(output_r)[k] == 0,
    {
        self.time = time;
        let num_samples = output_l.len();
        let mut next_event_idx: usize = 0;
        let mut block_start: usize = 0;
        let mut block_end: usize = if MAX_BLOCK_SIZE < num_samples {
            MAX_BLOCK_SIZE
        } else {
            num_samples
        };
        while block_start < num_samples
            invariant
                self.wf(),
                block_start <= num_samples,
                block_start < num_samples ==> block_start < block_end <= num_samples,
                next_event_idx <= events.len(),
                num_samples == output_l.len(),
                output_l.len() == old(output_l).len(),
                output_r.len() == old(output_r).len(),
                old(output_l).len() == old(output_r).len(),
                forall|k: int|
                    0 <= k < block_start ==> -16 * (crate::voice::VOICE_SAMPLE_MAX as int)
                        <= #[trigger] output_l[k] <= 16 * (crate::voice::VOICE_SAMPLE_MAX as int),
                forall|k: int|
                    0 <= k < block_start ==> -16 * (crate::voice::VOICE_SAMPLE_MAX as int)
                        <= #[trigger] output_r[k] <= 16 * (crate::voice::VOICE_SAMPLE_MAX as int),
                forall|k: int|
                    block_start <= k < num_samples ==> #[trigger] output_l[k] == old(
                        output_l,
                    )[k],
                forall|k: int|
                    block_start <= k < num_samples ==> #[trigger] output_r[k] == old(
                        output_r,
                    )[k],
                forall|k: int|
                    0 <= k < old(output_l).len() ==> -0x100000000000000 <= #[trigger] old(
                        output_l,
                    )[k] <= 0x100000000000000,
                forall|k: int|
                    0 <= k < old(output_r).len() ==> -0x100000000000000 <= #[trigger] old(
                        output_r,
                    )[k] <= 0x100000000000000,
                events.len() == 0 && pool_idle(old(self).voices@) ==> pool_idle(self.voices@),
                events.len() == 0 && pool_idle(old(self).voices@) ==> forall|k: int|
                    0 <= k < block_start ==> #[trigger] output_l[k] == 0,
                events.len() == 0 && pool_idle(old(self).voices@) ==> forall|k: int|
                    0 <= k < block_start ==> #[trigger] output_r[k] == 0,
            decreases num_samples - block_start,
        {
            let ghost ev_l = output_l@;
            let ghost ev_r = output_r@;
            loop
                invariant_except_break
                    self.wf(),
                    block_start < block_end <= num_samples,
                    next_event_idx <= events.len(),
                    output_l@ == ev_l,
                    output_r@ == ev_r,
                    events.len() == 0 && pool_idle(old(self).voices@) ==> pool_idle(
                        self.voices@,
                    ),
                ensures
                    self.wf(),
                    block_start < block_end <= num_samples,
                    next_event_idx <= events.len(),
                    output_l@ == ev_l,
                    output_r@ == ev_r,
                    events.len() == 0 && pool_idle(old(self).voices@) ==> pool_idle(
                        self.voices@,
                    ),
                decreases events.len() - next_event_idx,
            {
                if next_event_idx >= events.len() {
                    break ;
                }
                let e = events[next_event_idx];
                match e {
                    NoteEvent::NoteOn { timing, note, velocity } => {
                        if timing <= block_start {
                            let n = if note > 127 {
                                127
                            } else {
                                note
                            };
                            let v = if velocity > 127 {
                                127
                            } else {
                                velocity
                            };
                            let t = self.time;
                            self.note_on(n, v, t);
                            next_event_idx = next_event_idx + 1;
                        } else {
                            if timing < block_end {
                                block_end = timing;
                            }
                            break ;
                        }
                    },
                    NoteEvent::NoteOff { timing, note } => {
                        if timing <= block_start {
                            self.note_off(note);
                            next_event_idx = next_event_idx + 1;
                        } else {
                            if timing < block_end {
                                block_end = timing;
                            }
                            break ;
                        }
                    },
                    NoteEvent::PitchBend { timing, d1, d2 } => {
                        if timing <= block_start {
                            let b1 = if d1 > 127 {
                                127
                            } else {
                                d1
                            };
                            let b2 = if d2 > 127 {
                                127
                            } else {
                                d2
                            };
                            self.pitch_bend(b1, b2);
                            next_event_idx = next_event_idx + 1;
                        } else {
                            if timing < block_end {
                                block_end = timing;
                            }
                            break ;
                        }
                    },
                }
            }
            let ghost snap_l = output_l@;
            let ghost snap_r = output_r@;
            let mut i: usize = block_start;
            while i < block_end
                invariant
                    block_start <= i <= block_end <= num_samples,
                    output_l.len() == snap_l.len(),
                    output_r.len() == snap_r.len(),
                    num_samples == output_l.len(),
                    num_samples == output_r.len(),
                    forall|k: int|
                        0 <= k < output_l.len() && !(block_start <= k < i) ==> #[trigger]
                        output_l[k] == snap_l[k],
                    forall|k: int|
                        0 <= k < output_r.len() && !(block_start <= k < i) ==> #[trigger]
                        output_r[k] == snap_r[k],
                    forall|k: int| block_start <= k < i ==> #[trigger] output_l[k] == 0,
                    forall|k: int| block_start <= k < i ==> #[trigger] output_r[k] == 0,
                decreases block_end - i,
            {
                output_l.set(i, 0);
                output_r.set(i, 0);
                i = i + 1;
            }
            let mut j: usize = 0;
            while j < 16
                invariant
                    j <= 16,
                    self.wf(),
                    block_start < block_end <= num_samples,
                    output_l.len() == snap_l.len(),
                    output_r.len() == snap_r.len(),
                    num_samples == output_l.len(),
                    num_samples == output_r.len(),
                    forall|k: int|
                        0 <= k < output_l.len() && !(block_start <= k < block_end) ==> #[trigger]
                        output_l[k] == snap_l[k],
                    forall|k: int|
                        0 <= k < output_r.len() && !(block_start <= k < block_end) ==> #[trigger]
                        output_r[k] == snap_r[k],
                    forall|k: int|
                        block_start <= k < block_end ==> -(j as int) * (
                        crate::voice::VOICE_SAMPLE_MAX as int) <= #[trigger] output_l[k] <= (
                        j as int) * (crate::voice::VOICE_SAMPLE_MAX as int),
                    forall|k: int|
                        block_start <= k < block_end ==> -(j as int) * (
                        crate::voice::VOICE_SAMPLE_MAX as int) <= #[trigger] output_r[k] <= (
                        j as int) * (crate::voice::VOICE_SAMPLE_MAX as int),
                    forall|k: int|
                        0 <= k < snap_l.len() && !(block_start <= k < block_end)
                            ==> -0x100000000000000 <= #[trigger] snap_l[k] <= 0x100000000000000,
                    forall|k: int|
                        0 <= k < snap_r.len() && !(block_start <= k < block_end)
                            ==> -0x100000000000000 <= #[trigger] snap_r[k] <= 0x100000000000000,
                    events.len() == 0 && pool_idle(old(self).voices@) ==> pool_idle(
                        self.voices@,
                    ),
                    events.len() == 0 && pool_idle(old(self).voices@) ==> forall|k: int|
                        block_start <= k < block_end ==> #[trigger] output_l[k] == 0,
                    events.len() == 0 && pool_idle(old(self).voices@) ==> forall|k: int|
                        block_start <= k < block_end ==> #[trigger] output_r[k] == 0,
                decreases 16 - j,
            {
                let playing = !self.voices[j].amp_envelope.is_idle();
                if playing {
                    let dirty = self.take_env_dirty(j);
                    let ghost pv = self.voices@;
                    let mut v = self.voices.remove(j);
                    v.generate(
                        &self.table,
                        &self.params,
                        dirty,
                        output_l,
                        output_r,
                        block_start,
                        block_end,
                    );
                    self.voices.insert(j, v);
                    proof {
                        assert(self.voices@ =~= pv.update(j as int, self.voices@[j as int]));
                    }
                }
                j = j + 1;
            }
            block_start = block_end;
            block_end = if num_samples - block_start > MAX_BLOCK_SIZE {
                block_start + MAX_BLOCK_SIZE
            } else {
                num_samples
            };
        }
    }


    /// Render a block with no events: zero the buffers and sum the playing
    /// voices. With the whole pool idle the block comes back exactly zero.
    pub fn generate_audio(&mut self, output_l: &mut Vec<i64>, output_r: &mut Vec<i64>)
        requires
            old(self).wf(),
            old(output_l).len() == old(output_r).len(),
            forall|k: int|
                0 <= k < old(output_l).len() ==> -0x100000000000000 <= #[trigger] old(
                    output_l,
                )[k] <= 0x100000000000000,
            forall|k: int|
                0 <= k < old(output_r).len() ==> -0x100000000000000 <= #[trigger] old(
                    output_r,
                )[k] <= 0x100000000000000,
        ensures
            final(self).wf(),
            final(output_l).len() == old(output_l).len(),
            final(output_r).len() == old(output_r).len(),
            forall|k: int|
                0 <= k < old(output_l).len() ==> -16 * (crate::voice::VOICE_SAMPLE_MAX as int)
                    <= #[trigger] final(output_l)[k] <= 16 * (
                crate::voice::VOICE_SAMPLE_MAX as int),
            forall|k: int|
                0 <= k < old(output_r).len() ==> -16 * (crate::voice::VOICE_SAMPLE_MAX as int)
                    <= #[trigger] final(output_r)[k] <= 16 * (
                crate::voice::VOICE_SAMPLE_MAX as int),
            pool_idle(old(self).voices@) ==> forall|k: int|
                0 <= k < old(output_l).len() ==> #[trigger] final(output_l)[k] == 0,
            pool_idle(old(self).voices@) ==> forall|k: int|
                0 <= k < old(output_r).len() ==> #[trigger] final(output_r)[k] == 0,
    {
        let events: Vec<NoteEvent> = Vec::new();
        let t = self.time;
        self.process(&events, t, output_l, output_r);
    }

    /// Release every voice whose target note matches.
    #[verifier::rlimit(100)]
    #[verifier::spinoff_prover]
    pub fn note_off(&mut self, note: u8)
        requires
            old(self).wf(),
        ensures
            final(self).wf(),
            final(self).voices.len() == old(self).voices.len(),
            forall|j: int|
                0 <= j < old(self).voices.len() && old(self).voices[j].target_note != note
                    ==> #[trigger] final(self).voices[j] == old(self).voices[j],
            forall|j: int|
                0 <= j < old(self).voices.len() && old(self).voices[j].target_note == note
                    ==> #[trigger] final(self).voices[j] == (Voice {
                    amp_envelope: crate::voice::env_after_gate_off(
                        old(self).voices[j].amp_envelope,
                    ),
                    filter_envelope: crate::voice::env_after_gate_off(
                        old(self).voices[j].filter_envelope,
                    ),
                    ..old(self).voices[j]
                }),
    {
        let ghost vs = old(self).voices@;
        let mut i: usize = 0;
        while i < 16
            invariant
                i <= 16,
                self.wf(),
                self.voices.len() == 16,
                vs.len() == 16,
                forall|j: int| i <= j < 16 ==> #[trigger] self.voices[j] == vs[j],
                forall|j: int|
                    0 <= j < i && vs[j].target_note != note ==> #[trigger] self.voices[j] == vs[j],
                forall|j: int|
                    0 <= j < i && vs[j].target_note == note ==> #[trigger] self.voices[j] == (
                    Voice {
                        amp_envelope: crate::voice::env_after_gate_off(vs[j].amp_envelope),
                        filter_envelope: crate::voice::env_after_gate_off(vs[j].filter_envelope),
                        ..vs[j]
                    }),
            decreases 16 - i,
        {
            if self.voices[i].target_note == note {
                let mut v = self.voices.remove(i);
                v.note_off();
                self.voices.insert(i, v);
            }
            i = i + 1;
        }
    }

    /// Apply a 14-bit pitch-bend value to every voice:
    /// `(d2 * 256 + d1) / 16384 - 1` semitones, exactly.
    #[verifier::rlimit(100)]
    #[verifier::spinoff_prover]
    pub fn pitch_bend(&mut self, d1: u8, d2: u8)
        requires
            old(self).wf(),
            d1 <= 127,
            d2 <= 127,
        ensures
            final(self).wf(),
            final(self).voices.len() == old(self).voices.len(),
            forall|j: int|
                0 <= j < old(self).voices.len() ==> #[trigger] final(self).voices[j] == (Voice {
                    bend: (((d2 as i64) * 256 + (d1 as i64)) * 262144 - ONE) as i64,
                    ..old(self).voices[j]
                }),
    {
        let v1: i64 = d1 as i64;
        let v2: i64 = d2 as i64;
        let bend: i64 = (v2 * 256 + v1) * 262144 - ONE;
        let ghost vs = old(self).voices@;
        let mut i: usize = 0;
        while i < 16
            invariant
                i <= 16,
                self.wf(),
                self.voices.len() == 16,
                vs.len() == 16,
                -ONE <= bend < ONE,
                bend == ((d2 as int) * 256 + (d1 as int)) * 262144 - ONE,
                forall|j: int| i <= j < 16 ==> #[trigger] self.voices[j] == vs[j],
                forall|j: int|
                    0 <= j < i ==> #[trigger] self.voices[j] == (Voice { bend: bend, ..vs[j] }),
            decreases 16 - i,
        {
            let mut v = self.voices.remove(i);
            v.bend = bend;
            self.voices.insert(i, v);
            i = i + 1;
        }
    }
}


/// The declared default of every parameter, as one snapshot.
pub open spec fn default_voice_params() -> VoiceParams {
    VoiceParams {
        osc1_waveform: crate::oscillator::WaveForm::Saw,
        osc2_waveform: crate::oscillator::WaveForm::Saw,
        lfo_waveform: crate::oscillator::WaveForm::Sine,
        osc1_level: 4294967296i64,
        osc2_level: 4294967296i64,
        osc1_octave: 0i32,
        osc2_octave: 0i32,
        osc1_detune: 0i64,
        osc2_detune: 0i64,
        osc1_pulsewidth: 2147483648i64,
        osc2_pulsewidth: 2147483648i64,
        lfo_freq: 4294967296i64,
        lfo_osc1_detune_mod_depth: 0i64,
        lfo_filter_mod_depth: 0i64,
        filter_cutoff: 17179869184000i64,
        filter_resonance: 429496730i64,
        filter_env_mod_gain: 0i64,
        filter_key_track: 4294967296i64,
        filter_velocity_mod: 4294967296i64,
        amp_env_attack: 42949673i64,
        amp_env_decay: 42949673i64,
        amp_env_sustain: 4294967296i64,
        amp_env_release: 42949673i64,
        filter_env_attack: 42949673i64,
        filter_env_decay: 42949673i64,
        filter_env_sustain: 4294967296i64,
        filter_env_release: 42949673i64,
        master_gain: 4294967296i64,
        unison_detune: 214748365i64,
        unison_stereo_spread: 0i64,
        poly_mode: true,
        portamento: 0i64,
        unison_voices: 1usize,
        lfo_key_trig: true,
    }
}

impl Default for VoiceParams {
    /// The declared default of every parameter.
    fn default() -> (p: VoiceParams)
        ensures
            p == default_voice_params(),
            p.wf(),
            1 <= p.unison_voices <= crate::voice::MAX_UNISON,
    {
        VoiceParams {
            osc1_waveform: crate::oscillator::WaveForm::Saw,
            osc2_waveform: crate::oscillator::WaveForm::Saw,
            lfo_waveform: crate::oscillator::WaveForm::Sine,
            osc1_level: ONE,
            osc2_level: ONE,
            osc1_octave: 0,
            osc2_octave: 0,
            osc1_detune: 0,
            osc2_detune: 0,
            osc1_pulsewidth: 2147483648,
            osc2_pulsewidth: 2147483648,
            lfo_freq: ONE,
            lfo_osc1_detune_mod_depth: 0,
            lfo_filter_mod_depth: 0,
            filter_cutoff: 4000 * 4294967296,
            filter_resonance: 429496730,
            filter_env_mod_gain: 0,
            filter_key_track: ONE,
            filter_velocity_mod: ONE,
            amp_env_attack: 42949673,
            amp_env_decay: 42949673,
            amp_env_sustain: ONE,
            amp_env_release: 42949673,
            filter_env_attack: 42949673,
            filter_env_decay: 42949673,
            filter_env_sustain: ONE,
            filter_env_release: 42949673,
            master_gain: ONE,
            unison_detune: 214748365,
            unison_stereo_spread: 0,
            poly_mode: true,
            portamento: 0,
            unison_voices: 1,
            lfo_key_trig: true,
        }
    }
}

impl Default for Synth {
    /// A sixteen-voice pool at 44.1 kHz with every parameter at its
    /// declared default.
    fn default() -> (s: Synth)
        ensures
            s.wf(),
    {
        Synth::new(44100 * 4294967296, VoiceParams::default())
    }
}

/// A found idle voice at the scan position is the first idle one.
proof fn lemma_first_idle_found(vs: Seq<Voice>, i: int)
    requires
        0 <= i < vs.len(),
        first_idle_prefix(vs, i) == vs.len(),
        is_idle_voice(vs[i]),
    ensures
        first_idle_prefix(vs, vs.len() as int) == i,
{
    assert(first_idle_prefix(vs, i + 1) == i);
    lemma_first_idle_stable(vs, i + 1, vs.len() as int);
}

/// Once the scan has found an index, later prefixes keep it.
proof fn lemma_first_idle_stable(vs: Seq<Voice>, i: int, j: int)
    requires
        0 < i <= j <= vs.len(),
        first_idle_prefix(vs, i) < vs.len(),
    ensures
        first_idle_prefix(vs, j) == first_idle_prefix(vs, i),
    decreases j - i,
{
    if i < j {
        lemma_first_idle_stable(vs, i, j - 1);
        assert(first_idle_prefix(vs, j) == first_idle_prefix(vs, j - 1));
    }
}

/// Law: the decaying-voice scan selects the first decaying voice of
/// smallest start time whenever any voice is decaying: a decaying voice is
/// always stolen in preference to a newer sustaining one.
pub proof fn lemma_steal_prefers_decaying(vs: Seq<Voice>, i: int)
    requires
        0 <= i <= vs.len(),
    ensures
        oldest_decaying_prefix(vs, i) == vs.len() || 0 <= oldest_decaying_prefix(vs, i) < i,
        oldest_decaying_prefix(vs, i) == vs.len() ==> forall|j: int|
            0 <= j < i ==> !is_decaying_voice(#[trigger] vs[j]),
        oldest_decaying_prefix(vs, i) < vs.len() ==> {
            let c = oldest_decaying_prefix(vs, i);
            &&& 0 <= c < i
            &&& is_decaying_voice(vs[c])
            &&& forall|j: int|
                0 <= j < i && is_decaying_voice(#[trigger] vs[j]) ==> vs[c].start_time
                    <= vs[j].start_time
            &&& forall|j: int|
                0 <= j < i && is_decaying_voice(#[trigger] vs[j]) && vs[j].start_time
                    == vs[c].start_time ==> c <= j
        },
    decreases i,
{
    if i > 0 {
        lemma_steal_prefers_decaying(vs, i - 1);
        let p = oldest_decaying_prefix(vs, i - 1);
        if oldest_decaying_prefix(vs, i) < vs.len() {
            let c = oldest_decaying_prefix(vs, i);
            assert forall|j: int|
                0 <= j < i && is_decaying_voice(#[trigger] vs[j]) implies vs[c].start_time
                <= vs[j].start_time by {
                if j < i - 1 {
                    assert(p < vs.len());
                    assert(vs[p].start_time <= vs[j].start_time);
                }
            }
        }
    }
}

/// Law: the overall scan selects the first voice of smallest start
/// timestamp: with every voice busy and none decaying, `note_on` steals
/// the smallest-start-timestamp voice.
pub proof fn lemma_steal_oldest(vs: Seq<Voice>, i: int)
    requires
        1 <= i <= vs.len(),
    ensures
        ({
            let c = oldest_prefix(vs, i);
            &&& 0 <= c < i
            &&& forall|j: int| 0 <= j < i ==> vs[c].start_time <= (#[trigger] vs[j]).start_time
            &&& forall|j: int|
                0 <= j < i && (#[trigger] vs[j]).start_time == vs[c].start_time ==> c <= j
        }),
    decreases i,
{
    if i > 1 {
        lemma_steal_oldest(vs, i - 1);
    }
}

/// Law: the idle scan selects the least idle index, and reports none only
/// when no voice is idle.
pub proof fn lemma_first_idle_characterisation(vs: Seq<Voice>, i: int)
    requires
        0 <= i <= vs.len(),
    ensures
        first_idle_prefix(vs, i) == vs.len() || 0 <= first_idle_prefix(vs, i) < i,
        first_idle_prefix(vs, i) == vs.len() ==> forall|j: int|
            0 <= j < i ==> !is_idle_voice(#[trigger] vs[j]),
        first_idle_prefix(vs, i) < vs.len() ==> {
            let c = first_idle_prefix(vs, i);
            &&& 0 <= c < i
            &&& is_idle_voice(vs[c])
            &&& forall|j: int| 0 <= j < c ==> !is_idle_voice(#[trigger] vs[j])
        },
    decreases i,
{
    if i > 0 {
        lemma_first_idle_characterisation(vs, i - 1);
    }
}

} // verus!
