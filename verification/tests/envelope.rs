//! Envelope state-machine tests: monotone attack to an exact snap at 1.0,
//! monotone decay to an exact snap at the sustain level, monotone release
//! to an exact snap at 0, and the instantaneous-stage special case.

use synja::envelope::{AdsrEnvelope, State};
use synja::fixed::ONE;

fn fx(x: f64) -> i64 {
    (x * ONE as f64).round() as i64
}

const RATE: i64 = 44100 * 4294967296;

#[test]
fn attack_is_monotone_and_snaps_to_one() {
    let mut e = AdsrEnvelope::new(0);
    e.set_envelope_parameters(RATE, fx(0.01), fx(0.1), fx(0.5), fx(0.05));
    e.gate_on(0);
    let mut prev = e.level;
    let mut steps = 0usize;
    while e.state == State::Attacking {
        e.process();
        if e.state == State::Attacking {
            assert!(e.level > prev, "attack must strictly rise");
        } else {
            assert_eq!(e.level, ONE, "completion snaps exactly to 1.0");
        }
        prev = e.level;
        steps += 1;
        assert!(steps < 100_000, "attack must complete");
    }
    assert_eq!(e.state, State::Decaying);
}

#[test]
fn attack_reaches_099_by_expected_sample() {
    // 0.01 s at 44100 Hz is 441 samples; the level is at least 0.99 there.
    let mut e = AdsrEnvelope::new(0);
    e.set_envelope_parameters(RATE, fx(0.01), fx(0.1), fx(1.0), fx(0.05));
    e.gate_on(0);
    for _ in 0..441 {
        e.process();
    }
    assert!(e.level >= fx(0.99), "level {} below 0.99", e.level as f64 / ONE as f64);
}

#[test]
fn decay_is_monotone_and_snaps_to_sustain() {
    let sustain = fx(0.5);
    let mut e = AdsrEnvelope::new(0);
    e.set_envelope_parameters(RATE, fx(0.001), fx(0.02), sustain, fx(0.05));
    e.gate_on(0);
    while e.state == State::Attacking {
        e.process();
    }
    assert_eq!(e.level, ONE);
    let mut prev = e.level;
    let mut steps = 0usize;
    while e.state == State::Decaying {
        e.process();
        if e.state == State::Decaying {
            assert!(e.level < prev, "decay must strictly fall");
            assert!(e.level > sustain);
        } else {
            assert_eq!(e.level, sustain, "decay snaps exactly to the sustain level");
        }
        prev = e.level;
        steps += 1;
        assert!(steps < 100_000, "decay must complete");
    }
    assert_eq!(e.state, State::Sustaining);
    // Sustaining holds the level.
    e.process();
    e.process();
    assert_eq!(e.level, sustain);
}

#[test]
fn release_is_monotone_and_snaps_to_zero() {
    let mut e = AdsrEnvelope::new(0);
    e.set_envelope_parameters(RATE, fx(0.001), fx(0.01), fx(0.8), fx(0.02));
    e.gate_on(7);
    assert_eq!(e.gate_time, Some(7));
    for _ in 0..2000 {
        e.process();
    }
    e.gate_off();
    assert_eq!(e.state, State::Releasing);
    let mut prev = e.level;
    let mut steps = 0usize;
    while e.state == State::Releasing {
        e.process();
        if e.state == State::Releasing {
            assert!(e.level < prev, "release must strictly fall");
        } else {
            assert_eq!(e.level, 0, "release snaps exactly to 0");
        }
        prev = e.level;
        steps += 1;
        assert!(steps < 100_000, "release must complete");
    }
    assert_eq!(e.state, State::Idle);
    assert_eq!(e.gate_time, None, "idle drops the stored gate-on time");
    // Idle holds at exactly zero thereafter.
    e.process();
    assert_eq!(e.level, 0);
    assert_eq!(e.state, State::Idle);
}

#[test]
fn gate_off_moves_every_held_stage_to_releasing() {
    for warmup in [0usize, 5, 5000] {
        let mut e = AdsrEnvelope::new(0);
        e.set_envelope_parameters(RATE, fx(0.001), fx(0.01), fx(0.5), fx(0.02));
        e.gate_on(0);
        for _ in 0..warmup {
            e.process();
        }
        assert_ne!(e.state, State::Idle);
        e.gate_off();
        assert_eq!(e.state, State::Releasing);
    }
}

#[test]
fn non_positive_rate_jumps_instantly() {
    let mut e = AdsrEnvelope::new(0);
    e.set_envelope_parameters(RATE, 0, fx(0.01), fx(0.5), fx(0.02));
    e.gate_on(0);
    e.process();
    assert_eq!(e.level, ONE, "a zero attack rate reaches full level in one step");
    assert_eq!(e.state, State::Decaying);
}
