//! Pitch conversion tests: the lookup-table conversion against the exact
//! exponential, across the MIDI range.

use synja::fixed::ONE;
use synja::midi::{midi_pitch_to_freq_slow, midi_velocity_to_amplitude, PitchTable};

fn fx(x: f64) -> i64 {
    (x * ONE as f64).round() as i64
}

fn fl(v: i64) -> f64 {
    v as f64 / ONE as f64
}

fn exact_freq(pitch: f64) -> f64 {
    ((pitch - 69.0) / 12.0).exp2() * 440.0
}

#[test]
fn midi_pitch_to_freq_reference() {
    assert_eq!(fl(midi_pitch_to_freq_slow(fx(69.0))), 440.0);
    assert!((fl(midi_pitch_to_freq_slow(fx(71.0))) - 493.883301256).abs() < 0.001);
}

#[test]
fn midi_pitch_to_freq_lookup() {
    let t = PitchTable::new();
    // Check some known freqs
    assert_eq!(fl(t.midi_pitch_to_freq(fx(69.0))), 440.0);
    assert!((fl(t.midi_pitch_to_freq(fx(70.0))) - 466.16376).abs() < 0.001);
    assert!((fl(t.midi_pitch_to_freq(fx(71.0))) - 493.883301256).abs() < 0.001);
    assert!((fl(t.midi_pitch_to_freq(fx(0.0))) - 8.1757).abs() < 0.001);

    // Check every cent in the normal midi range for deviation in the lookup.
    for i in 0..128 {
        for c in 0..99 {
            let p = i as f64 + c as f64 * 0.01;
            let fast = fl(t.midi_pitch_to_freq(fx(p)));
            let slow = exact_freq(p);
            assert!(
                (fast - slow).abs() < 0.001 * slow,
                "pitch {} fast {} slow {}",
                p,
                fast,
                slow
            );
        }
    }
}

#[test]
fn midi_pitch_to_freq_interpolated() {
    let t = PitchTable::new();
    assert!((fl(t.midi_pitch_to_freq(fx(70.5))) - 479.8234).abs() < 0.01);
}

#[test]
fn octaves_of_a4_are_exact() {
    let t = PitchTable::new();
    // One octave up and down from A4 are exact powers of two times 440 Hz.
    assert_eq!(t.midi_pitch_to_freq(fx(81.0)), 880 * ONE);
    assert_eq!(t.midi_pitch_to_freq(fx(93.0)), 1760 * ONE);
    assert_eq!(t.midi_pitch_to_freq(fx(57.0)), 220 * ONE);
    assert_eq!(t.midi_pitch_to_freq(fx(45.0)), 110 * ONE);
}

#[test]
fn pitch_clamps_to_table_edge() {
    let t = PitchTable::new();
    // Far outside the table span, the conversion clamps to the edge value.
    let top = t.midi_pitch_to_freq(fx(324.0));
    let beyond = t.midi_pitch_to_freq(fx(1000.0));
    assert_eq!(top, beyond);
    let bottom = t.midi_pitch_to_freq(fx(-187.0));
    let below = t.midi_pitch_to_freq(fx(-1000.0));
    assert_eq!(bottom, below);
}

#[test]
fn velocity_curve_matches_formula() {
    // (m*v + b)^2 with b = 0.023937 and m = (1 - b) / 127.
    let b = 0.023937f64;
    let m = (1.0 - b) / 127.0;
    for v in [0u8, 1, 64, 100, 127] {
        let expect = (m * v as f64 + b) * (m * v as f64 + b);
        let got = fl(midi_velocity_to_amplitude(v));
        assert!((got - expect).abs() < 1e-6, "v {} got {} expect {}", v, got, expect);
    }
    assert!(fl(midi_velocity_to_amplitude(127)) <= 1.0);
}
