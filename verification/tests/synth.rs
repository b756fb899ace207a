//! Voice-pool tests: allocation and stealing policy, note-off and
//! pitch-bend dispatch, and the end-to-end render path.

use synja::envelope::State;
use synja::fixed::ONE;
use synja::oscillator::WaveForm;
use synja::voice::VoiceParams;
use synja::{NoteEvent, Synth};

fn fx(x: f64) -> i64 {
    (x * ONE as f64).round() as i64
}

const RATE: i64 = 44100 * 4294967296;

fn test_params() -> VoiceParams {
    VoiceParams {
        osc1_waveform: WaveForm::Saw,
        osc2_waveform: WaveForm::Saw,
        lfo_waveform: WaveForm::Sine,
        osc1_level: ONE,
        osc2_level: ONE,
        osc1_octave: 0,
        osc2_octave: 0,
        osc1_detune: 0,
        osc2_detune: 0,
        osc1_pulsewidth: fx(0.5),
        osc2_pulsewidth: fx(0.5),
        lfo_freq: fx(2.0),
        lfo_osc1_detune_mod_depth: 0,
        lfo_filter_mod_depth: 0,
        filter_cutoff: fx(4000.0),
        filter_resonance: fx(0.1),
        filter_env_mod_gain: 0,
        filter_key_track: fx(0.1),
        filter_velocity_mod: fx(0.1),
        amp_env_attack: fx(0.01),
        amp_env_decay: fx(0.01),
        amp_env_sustain: ONE,
        amp_env_release: fx(0.01),
        filter_env_attack: fx(0.01),
        filter_env_decay: fx(0.01),
        filter_env_sustain: ONE,
        filter_env_release: fx(0.01),
        master_gain: ONE,
        unison_detune: fx(0.05),
        unison_stereo_spread: fx(0.5),
        poly_mode: true,
        portamento: 0,
        unison_voices: 1,
        lfo_key_trig: true,
    }
}

#[test]
fn idle_pool_assigns_first_idle_voice() {
    let mut s = Synth::new(RATE, test_params());
    s.note_on(60, 127, 0);
    assert_eq!(s.voices[0].target_note, 60);
    assert_eq!(s.voices[0].start_time, 0);
    assert_eq!(s.voices[0].amp_envelope.state, State::Attacking);
    s.note_on(64, 100, 1);
    assert_eq!(s.voices[1].target_note, 64);
    assert_eq!(s.voices[0].target_note, 60, "voice 0 keeps its note");
    for i in 2..16 {
        assert_eq!(s.voices[i].amp_envelope.state, State::Idle);
    }
}

#[test]
fn full_pool_steals_oldest_voice() {
    let mut s = Synth::new(RATE, test_params());
    for n in 0..16u8 {
        s.note_on(40 + n, 100, n as u64);
    }
    // All sixteen are attacking; none is decaying. The oldest start
    // timestamp is voice 0 (time 0).
    s.note_on(100, 100, 99);
    assert_eq!(s.voices[0].target_note, 100, "oldest voice stolen");
    assert_eq!(s.voices[0].start_time, 99);
    for i in 1..16 {
        assert_eq!(s.voices[i].target_note, 40 + i as u8, "voice {} untouched", i);
    }
}

#[test]
fn decaying_voice_is_stolen_before_older_busy_voice() {
    let mut s = Synth::new(RATE, test_params());
    for n in 0..16u8 {
        s.note_on(40 + n, 100, n as u64);
    }
    // Voice 5 is newer than voice 0, but decaying: it must be stolen.
    s.voices[5].amp_envelope.state = State::Decaying;
    s.note_on(101, 100, 99);
    assert_eq!(s.voices[5].target_note, 101, "decaying voice stolen first");
    assert_eq!(s.voices[0].target_note, 40, "older busy voice kept its note");
}

#[test]
fn monophonic_mode_always_retriggers_voice_zero() {
    let mut p = test_params();
    p.poly_mode = false;
    let mut s = Synth::new(RATE, p);
    s.note_on(60, 100, 0);
    s.note_on(72, 100, 1);
    assert_eq!(s.voices[0].target_note, 72);
    for i in 1..16 {
        assert_eq!(s.voices[i].amp_envelope.state, State::Idle);
    }
}

#[test]
fn note_off_releases_only_matching_voices() {
    let mut s = Synth::new(RATE, test_params());
    s.note_on(60, 100, 0);
    s.note_on(64, 100, 1);
    s.note_off(60);
    assert_eq!(s.voices[0].amp_envelope.state, State::Releasing);
    assert_eq!(s.voices[1].amp_envelope.state, State::Attacking);
}

#[test]
fn pitch_bend_is_exact_fourteen_bit() {
    let mut s = Synth::new(RATE, test_params());
    // Centre position: (64 * 256 + 0) / 16384 - 1 = 0 semitones.
    s.pitch_bend(0, 64);
    assert_eq!(s.voices[0].bend, 0);
    // Lowest position: -1 semitone exactly.
    s.pitch_bend(0, 0);
    assert_eq!(s.voices[0].bend, -ONE);
    // Highest position: (127 * 256 + 127) / 16384 - 1.
    s.pitch_bend(127, 127);
    assert_eq!(s.voices[0].bend, 32639i64 * 262144 - ONE);
}

#[test]
fn render_attack_reaches_full_level_by_441_samples() {
    let mut s = Synth::new(RATE, test_params());
    let events = vec![NoteEvent::NoteOn { timing: 0, note: 60, velocity: 127 }];
    let mut l = vec![0i64; 441];
    let mut r = vec![0i64; 441];
    s.process(&events, 0, &mut l, &mut r);
    assert_eq!(s.voices[0].target_note, 60);
    assert!(
        s.voices[0].amp_envelope.level >= fx(0.99),
        "amp level {} below 0.99 after 441 samples",
        s.voices[0].amp_envelope.level as f64 / ONE as f64
    );
    // The pool actually produced sound.
    let energy: i128 = l.iter().map(|v| (*v as i128).abs()).sum();
    assert!(energy > 0, "rendered block is silent");
}

#[test]
fn events_split_the_block_at_their_sample() {
    let mut s = Synth::new(RATE, test_params());
    // The note starts mid-block: every sample before its timing is silent,
    // and sound appears from the onset on.
    let onset = 100usize;
    let events = vec![NoteEvent::NoteOn { timing: onset, note: 69, velocity: 127 }];
    let mut l = vec![0i64; 300];
    let mut r = vec![0i64; 300];
    s.process(&events, 0, &mut l, &mut r);
    for i in 0..onset {
        assert_eq!(l[i], 0, "sample {} before the onset must be silent", i);
    }
    let tail: i128 = l[onset..].iter().map(|v| (*v as i128).abs()).sum();
    assert!(tail > 0, "no sound after the onset");
}

#[test]
fn render_is_additive_into_subsequent_blocks() {
    // Rendering twice accumulates envelope state: a released note decays
    // to silence and the voice returns to idle, becoming reusable.
    let mut s = Synth::new(RATE, test_params());
    let on = vec![NoteEvent::NoteOn { timing: 0, note: 60, velocity: 127 }];
    let mut l = vec![0i64; 512];
    let mut r = vec![0i64; 512];
    s.process(&on, 0, &mut l, &mut r);
    let off = vec![NoteEvent::NoteOff { timing: 0, note: 60 }];
    for _ in 0..40 {
        s.process(&off, 1, &mut l, &mut r);
    }
    assert_eq!(s.voices[0].amp_envelope.state, State::Idle);
    assert_eq!(s.voices[0].amp_envelope.level, 0);
}

#[test]
fn pitch_bend_event_applies_at_its_sample() {
    let mut s = Synth::new(RATE, test_params());
    let events = vec![
        NoteEvent::NoteOn { timing: 0, note: 60, velocity: 127 },
        NoteEvent::PitchBend { timing: 64, d1: 0, d2: 0 },
    ];
    let mut l = vec![0i64; 200];
    let mut r = vec![0i64; 200];
    s.process(&events, 0, &mut l, &mut r);
    assert_eq!(s.voices[0].bend, -ONE, "bend applied during the block");
}

#[test]
fn portamento_glides_toward_the_target_note() {
    let mut p = test_params();
    p.poly_mode = false;
    p.portamento = fx(10.0);
    let mut s = Synth::new(RATE, p);
    s.note_on(60, 127, 0);
    let mut l = vec![0i64; 64];
    let mut r = vec![0i64; 64];
    s.process(&vec![], 0, &mut l, &mut r);
    // Mono retrigger with a higher note: the glided note rises toward it
    // without overshooting.
    s.note_on(72, 127, 1);
    let mut prev = s.voices[0].note;
    for _ in 0..20 {
        let mut l2 = vec![0i64; 64];
        let mut r2 = vec![0i64; 64];
        s.process(&vec![], 1, &mut l2, &mut r2);
        let n = s.voices[0].note;
        assert!(n >= prev, "glide went backwards");
        assert!(n <= 72 * ONE, "glide overshot the target");
        prev = n;
    }
    assert!(prev > 60 * ONE, "glide made no progress");
}

#[test]
fn full_unison_renders_stereo_sound() {
    let mut p = test_params();
    p.unison_voices = 7;
    p.unison_detune = fx(0.3);
    p.unison_stereo_spread = ONE;
    p.osc1_octave = 2;
    p.osc2_octave = -2;
    let mut s = Synth::new(RATE, p);
    let events = vec![NoteEvent::NoteOn { timing: 0, note: 60, velocity: 100 }];
    let mut l = vec![0i64; 512];
    let mut r = vec![0i64; 512];
    s.process(&events, 0, &mut l, &mut r);
    assert_eq!(s.voices[0].unison, 7);
    let el: i128 = l.iter().map(|v| (*v as i128).abs()).sum();
    let er: i128 = r.iter().map(|v| (*v as i128).abs()).sum();
    assert!(el > 0 && er > 0, "seven-voice unison must sound on both channels");
    // The spread pans the detuned copies differently per channel.
    assert!(l != r, "full stereo spread must decorrelate the channels");
}

#[test]
fn idle_pool_renders_exact_silence() {
    let mut s = Synth::new(RATE, test_params());
    let mut l = vec![7i64; 333];
    let mut r = vec![-9i64; 333];
    s.process(&vec![], 0, &mut l, &mut r);
    assert!(l.iter().all(|v| *v == 0), "left channel not silent");
    assert!(r.iter().all(|v| *v == 0), "right channel not silent");
}
