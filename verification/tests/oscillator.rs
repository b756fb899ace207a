//! Oscillator tests: output range of the band-limited waveforms at high
//! fundamental frequencies, alias suppression against a naive ramp, and
//! phase handling.

use synja::fixed::ONE;
use synja::oscillator::{Oscillator, WaveForm};

fn fx(x: f64) -> i64 {
    (x * ONE as f64).round() as i64
}

fn fl(v: i64) -> f64 {
    v as f64 / ONE as f64
}

const RATE: i64 = 44100 * 4294967296;

#[test]
fn saw_output_stays_in_range_at_high_frequency() {
    // At 2 kHz one correction kernel is pending at a time: the output
    // stays within the kernel's own small ripple of full scale.
    let mut o = Oscillator::new();
    let freq = fx(2000.0);
    for _ in 0..4096 {
        let s = o.generate(WaveForm::Saw, freq, ONE, fx(0.5), RATE);
        let v = fl(s);
        assert!(v.abs() <= 1.15, "saw sample {} beyond tolerance", v);
    }
    // At 5 kHz adjacent kernels overlap and their ripples stack, but the
    // output remains within a moderate bound of full scale.
    let mut o2 = Oscillator::new();
    let freq2 = fx(5000.0);
    for _ in 0..4096 {
        let s = o2.generate(WaveForm::Saw, freq2, ONE, fx(0.5), RATE);
        let v = fl(s);
        assert!(v.abs() <= 1.5, "saw sample {} beyond stacked tolerance", v);
    }
}

#[test]
fn pulse_output_stays_in_range_at_high_frequency() {
    let mut o = Oscillator::new();
    let freq = fx(3000.0);
    for _ in 0..4096 {
        let s = o.generate(WaveForm::Square, freq, ONE, fx(0.3), RATE);
        let v = fl(s);
        assert!(v.abs() <= 1.4, "pulse sample {} beyond tolerance", v);
    }
}

#[test]
fn uncorrected_waveforms_stay_within_amplitude() {
    for wf in [WaveForm::Sine, WaveForm::Triangle, WaveForm::UnipolarSquare] {
        let mut o = Oscillator::new();
        for _ in 0..2000 {
            let s = o.generate(wf, fx(2.5), ONE, fx(0.5), RATE);
            assert!(s.abs() <= ONE, "{:?} sample out of range", wf);
        }
    }
}

/// Goertzel-style single-bin magnitude over a sample buffer.
fn bin_magnitude(samples: &[f64], freq_hz: f64, rate_hz: f64) -> f64 {
    let n = samples.len() as f64;
    let w = 2.0 * std::f64::consts::PI * freq_hz / rate_hz;
    let mut re = 0.0;
    let mut im = 0.0;
    for (i, s) in samples.iter().enumerate() {
        re += s * (w * i as f64).cos();
        im += s * (w * i as f64).sin();
    }
    (re * re + im * im).sqrt() / n
}

#[test]
fn corrected_saw_has_less_aliasing_than_naive_ramp() {
    // A 10 kHz saw at 44.1 kHz: its third harmonic (30 kHz) folds down to
    // 14.1 kHz, where a clean spectrum has no component. The corrected
    // saw's energy there must be well below the naive ramp's.
    let rate = 44100.0;
    let f0 = 10000.0;
    let alias = 3.0 * f0 - rate;
    let n = 8192usize;
    let mut o = Oscillator::new();
    let freq = fx(f0);
    let mut corrected = Vec::with_capacity(n);
    for _ in 0..n {
        corrected.push(fl(o.generate(WaveForm::Saw, freq, ONE, fx(0.5), RATE)));
    }
    // The naive bipolar ramp over the same phase sequence.
    let mut phase = 0.0f64;
    let dp = f0 / rate;
    let mut naive = Vec::with_capacity(n);
    for _ in 0..n {
        phase += dp;
        if phase >= 1.0 {
            phase -= 1.0;
        }
        naive.push(2.0 * phase - 1.0);
    }
    let e_naive = bin_magnitude(&naive, alias, rate);
    let e_corr = bin_magnitude(&corrected, alias, rate);
    assert!(
        e_corr < 0.5 * e_naive,
        "alias energy not suppressed: corrected {} naive {}",
        e_corr,
        e_naive
    );
}

#[test]
fn trig_resets_phase_and_set_phase_seeds_it() {
    let mut o = Oscillator::new();
    o.set_phase(fx(0.25));
    assert_eq!(o.phase, fx(0.25));
    o.trig();
    assert_eq!(o.phase, 0);
}

#[test]
fn waveform_selector_mapping() {
    assert_eq!(WaveForm::from(0), WaveForm::Saw);
    assert_eq!(WaveForm::from(1), WaveForm::Square);
    assert_eq!(WaveForm::from(2), WaveForm::Sine);
    assert_eq!(WaveForm::from(3), WaveForm::UnipolarSquare);
    assert_eq!(WaveForm::from(4), WaveForm::Triangle);
}

#[test]
fn non_positive_frequency_is_silent() {
    let mut o = Oscillator::new();
    o.set_phase(fx(0.123));
    let s = o.generate(WaveForm::Saw, 0, ONE, fx(0.5), RATE);
    assert_eq!(s, 0);
    assert_eq!(o.phase, fx(0.123), "state untouched for silent calls");
}
