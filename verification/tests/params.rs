//! Parameter-surface tests: declaration-order indexing, range mappings and
//! waveform selectors.

use synja::fixed::ONE;
use synja::oscillator::WaveForm;
use synja::parameters::{
    LfoWaveFormParameter, Param, ParameterRange, WaveFormParameter, PARAMS,
};

fn fx(x: f64) -> i64 {
    (x * ONE as f64).round() as i64
}

fn fl(v: i64) -> f64 {
    v as f64 / ONE as f64
}

#[test]
fn param_indices_are_declaration_order() {
    for (i, p) in PARAMS.iter().enumerate() {
        assert_eq!(p.index(), i);
        assert_eq!(p.iindex(), i as i32);
        assert_eq!(Param::from_index(i), *p);
    }
}

#[test]
fn linear_range_roundtrips() {
    let r = ParameterRange::Linear(-2 * ONE, 2 * ONE);
    for x in [-2.0f64, -1.0, 0.0, 0.5, 2.0] {
        let d = r.map_to_daw(fx(x));
        assert!(0 <= d && d <= ONE);
        let back = r.map_to_plugin(d);
        assert!((fl(back) - x).abs() < 1e-6, "x {} back {}", x, fl(back));
    }
}

#[test]
fn logarithmic_range_roundtrips() {
    let r = ParameterRange::Logarithmic(fx(20.0), fx(20000.0));
    for x in [20.0f64, 100.0, 4000.0, 20000.0] {
        let d = r.map_to_daw(fx(x));
        assert!(0 <= d && d <= ONE);
        let back = r.map_to_plugin(d);
        assert!(
            (fl(back) - x).abs() < 0.01 * x,
            "x {} back {}",
            x,
            fl(back)
        );
    }
}

#[test]
fn discrete_range_rounds_to_steps() {
    let r = ParameterRange::Discrete(-3, 3);
    // A normalised value halfway between steps rounds to a whole step.
    for step in -3..=3i64 {
        let d = r.map_to_daw(step * ONE);
        let back = r.map_to_plugin(d);
        assert_eq!(back, step * ONE, "step {}", step);
    }
}

#[test]
fn configs_have_usable_ranges() {
    for p in PARAMS.iter() {
        let c = p.get_config();
        let (lo, hi) = c.range.range();
        assert!(lo < hi, "{:?}", p);
        assert!(lo <= c.default && c.default <= hi, "default out of range for {:?}", p);
        let d = c.map_to_daw(c.default);
        assert!(0 <= d && d <= ONE);
    }
}

#[test]
fn waveform_selectors_map_to_engine_waveforms() {
    assert_eq!(WaveFormParameter::Saw.to_waveform(), WaveForm::Saw);
    assert_eq!(WaveFormParameter::Square.to_waveform(), WaveForm::Square);
    assert_eq!(WaveFormParameter::Sine.to_waveform(), WaveForm::Sine);
    assert_eq!(LfoWaveFormParameter::Sine.to_waveform(), WaveForm::Sine);
    assert_eq!(
        LfoWaveFormParameter::Square.to_waveform(),
        WaveForm::UnipolarSquare
    );
    assert_eq!(LfoWaveFormParameter::Triangle.to_waveform(), WaveForm::Triangle);
}
