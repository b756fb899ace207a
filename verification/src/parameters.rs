//! The parameter surface: the closed set of parameters, their declared
//! ranges and defaults, and the mappings between host-normalised values in
//! `[0, ONE]` and plugin values.

use vstd::prelude::*;

use crate::fixed::{clamp64, fdiv, fixdiv, fmul, one, spec_clamp, ONE};
use crate::midi::log2_fixed;
use crate::oscillator::WaveForm;

verus! {

/// Waveform selector of the two audio oscillators.
#[derive(Clone, Copy, Debug, PartialEq, Eq, Structural)]
pub enum WaveFormParameter {
    /// Bi-polar antialiased positive ramp saw.
    Saw,
    /// Bi-polar antialiased square wave, variable pulse width.
    Square,
    /// Sine waveform.
    Sine,
}

/// Waveform selector of the LFO.
#[derive(Clone, Copy, Debug, PartialEq, Eq, Structural)]
pub enum LfoWaveFormParameter {
    /// Sine waveform.
    Sine,
    /// Unipolar non-antialiased square, fixed 50% pulse width.
    Square,
    /// Naive triangle.
    Triangle,
}

impl WaveFormParameter {
    /// The oscillator waveform this selector stands for.
    pub fn to_waveform(self) -> (w: WaveForm)
        ensures
            w == (match self {
                WaveFormParameter::Saw => WaveForm::Saw,
                WaveFormParameter::Square => WaveForm::Square,
                WaveFormParameter::Sine => WaveForm::Sine,
            }),
    {
        match self {
            WaveFormParameter::Saw => WaveForm::Saw,
            WaveFormParameter::Square => WaveForm::Square,
            WaveFormParameter::Sine => WaveForm::Sine,
        }
    }
}

impl LfoWaveFormParameter {
    /// The oscillator waveform this selector stands for: the LFO set is
    /// the naive trio.
    pub fn to_waveform(self) -> (w: WaveForm)
        ensures
            w == (match self {
                LfoWaveFormParameter::Triangle => WaveForm::Triangle,
                LfoWaveFormParameter::Square => WaveForm::UnipolarSquare,
                LfoWaveFormParameter::Sine => WaveForm::Sine,
            }),
            w is Sine || w is UnipolarSquare || w is Triangle,
    {
        match self {
            LfoWaveFormParameter::Triangle => WaveForm::Triangle,
            LfoWaveFormParameter::Square => WaveForm::UnipolarSquare,
            LfoWaveFormParameter::Sine => WaveForm::Sine,
        }
    }
}

/// The closed set of parameters.
#[derive(Clone, Copy, Debug, PartialEq, Eq, Structural)]
pub enum Param {
    FilterCutoff,
    FilterResonance,
    FilterEnvModGain,
    FilterKeyTrack,
    FilterVelocityMod,
    AmpEnvAttack,
    AmpEnvDecay,
    AmpEnvSustain,
    AmpEnvRelease,
    FilterEnvAttack,
    FilterEnvDecay,
    FilterEnvSustain,
    FilterEnvRelease,
    Osc1Level,
    Osc1Octave,
    Osc1Detune,
    Osc1WaveForm,
    Osc1PulseWidth,
    Osc2Level,
    Osc2Octave,
    Osc2Detune,
    Osc2WaveForm,
    Osc2PulseWidth,
    LfoHostSync,
    LfoKeyTrig,
    LfoFreq,
    LfoWaveform,
    LfoFilterModDepth,
    LfoOsc1DetuneDepth,
    MasterGain,
    UnisonVoices,
    UnisonDetune,
    UnisonStereoSpread,
    PolyMode,
    Portamento,
}

/// Every parameter, in declaration order.
pub const PARAMS: [Param; 35] = [
    Param::FilterCutoff,
    Param::FilterResonance,
    Param::FilterEnvModGain,
    Param::FilterKeyTrack,
    Param::FilterVelocityMod,
    Param::AmpEnvAttack,
    Param::AmpEnvDecay,
    Param::AmpEnvSustain,
    Param::AmpEnvRelease,
    Param::FilterEnvAttack,
    Param::FilterEnvDecay,
    Param::FilterEnvSustain,
    Param::FilterEnvRelease,
    Param::Osc1Level,
    Param::Osc1Octave,
    Param::Osc1Detune,
    Param::Osc1WaveForm,
    Param::Osc1PulseWidth,
    Param::Osc2Level,
    Param::Osc2Octave,
    Param::Osc2Detune,
    Param::Osc2WaveForm,
    Param::Osc2PulseWidth,
    Param::LfoHostSync,
    Param::LfoKeyTrig,
    Param::LfoFreq,
    Param::LfoWaveform,
    Param::LfoFilterModDepth,
    Param::LfoOsc1DetuneDepth,
    Param::MasterGain,
    Param::UnisonVoices,
    Param::UnisonDetune,
    Param::UnisonStereoSpread,
    Param::PolyMode,
    Param::Portamento,
];

/// The position of a parameter in declaration order.
pub open spec fn param_index(p: Param) -> int {
    match p {
        Param::FilterCutoff => 0,
        Param::FilterResonance => 1,
        Param::FilterEnvModGain => 2,
        Param::FilterKeyTrack => 3,
        Param::FilterVelocityMod => 4,
        Param::AmpEnvAttack => 5,
        Param::AmpEnvDecay => 6,
        Param::AmpEnvSustain => 7,
        Param::AmpEnvRelease => 8,
        Param::FilterEnvAttack => 9,
        Param::FilterEnvDecay => 10,
        Param::FilterEnvSustain => 11,
        Param::FilterEnvRelease => 12,
        Param::Osc1Level => 13,
        Param::Osc1Octave => 14,
        Param::Osc1Detune => 15,
        Param::Osc1WaveForm => 16,
        Param::Osc1PulseWidth => 17,
        Param::Osc2Level => 18,
        Param::Osc2Octave => 19,
        Param::Osc2Detune => 20,
        Param::Osc2WaveForm => 21,
        Param::Osc2PulseWidth => 22,
        Param::LfoHostSync => 23,
        Param::LfoKeyTrig => 24,
        Param::LfoFreq => 25,
        Param::LfoWaveform => 26,
        Param::LfoFilterModDepth => 27,
        Param::LfoOsc1DetuneDepth => 28,
        Param::MasterGain => 29,
        Param::UnisonVoices => 30,
        Param::UnisonDetune => 31,
        Param::UnisonStereoSpread => 32,
        Param::PolyMode => 33,
        Param::Portamento => 34,
    }
}

/// The declared configuration of every parameter.
pub open spec fn spec_get_config(p: Param) -> ParamConfig {
    match p {
        Param::FilterCutoff => ParamConfig {
            range: ParameterRange::Logarithmic(85899345920i64, 85899345920000i64),
            default: 17179869184000i64,
            unit: "Hz",
            label: "Cutoff",
            daw_name: "Filter Cutoff",
        },
        Param::FilterResonance => ParamConfig {
            range: ParameterRange::Linear(0i64, 3865470566i64),
            default: 429496730i64,
            unit: "",
            label: "Resonance",
            daw_name: "Filter Resonance",
        },
        Param::FilterEnvModGain => ParamConfig {
            range: ParameterRange::Linear(-4294967296i64, 4294967296i64),
            default: 0i64,
            unit: "",
            label: "Env",
            daw_name: "Filter Env Mod",
        },
        Param::FilterKeyTrack => ParamConfig {
            range: ParameterRange::Linear(0i64, 4294967296i64),
            default: 4294967296i64,
            unit: "",
            label: "Key",
            daw_name: "Filter key track",
        },
        Param::FilterVelocityMod => ParamConfig {
            range: ParameterRange::Linear(0i64, 4294967296i64),
            default: 4294967296i64,
            unit: "",
            label: "Vel",
            daw_name: "Filter velocity mod",
        },
        Param::AmpEnvAttack => ParamConfig {
            range: ParameterRange::Logarithmic(4294967i64, 68719476736i64),
            default: 42949673i64,
            unit: "s",
            label: "A",
            daw_name: "Amp Env Attack",
        },
        Param::AmpEnvDecay => ParamConfig {
            range: ParameterRange::Logarithmic(4294967i64, 68719476736i64),
            default: 42949673i64,
            unit: "s",
            label: "D",
            daw_name: "Amp Env Decay",
        },
        Param::AmpEnvSustain => ParamConfig {
            range: ParameterRange::Linear(0i64, 4294967296i64),
            default: 4294967296i64,
            unit: "",
            label: "S",
            daw_name: "Amp Env Sustain",
        },
        Param::AmpEnvRelease => ParamConfig {
            range: ParameterRange::Logarithmic(4294967i64, 68719476736i64),
            default: 42949673i64,
            unit: "s",
            label: "R",
            daw_name: "Amp Env Release",
        },
        Param::FilterEnvAttack => ParamConfig {
            range: ParameterRange::Logarithmic(4294967i64, 68719476736i64),
            default: 42949673i64,
            unit: "s",
            label: "A",
            daw_name: "Filter Env Attack",
        },
        Param::FilterEnvDecay => ParamConfig {
            range: ParameterRange::Logarithmic(4294967i64, 68719476736i64),
            default: 42949673i64,
            unit: "s",
            label: "D",
            daw_name: "Filter Env Decay",
        },
        Param::FilterEnvSustain => ParamConfig {
            range: ParameterRange::Linear(0i64, 4294967296i64),
            default: 4294967296i64,
            unit: "",
            label: "S",
            daw_name: "Filter Env Sustain",
        },
        Param::FilterEnvRelease => ParamConfig {
            range: ParameterRange::Logarithmic(4294967i64, 68719476736i64),
            default: 42949673i64,
            unit: "s",
            label: "R",
            daw_name: "Filter Env Release",
        },
        Param::Osc1Level => ParamConfig {
            range: ParameterRange::Linear(0i64, 4294967296i64),
            default: 4294967296i64,
            unit: "",
            label: "Osc1",
            daw_name: "OSC1 Level",
        },
        Param::Osc1Octave => ParamConfig {
            range: ParameterRange::Discrete(-3i32, 3i32),
            default: 0i64,
            unit: "",
            label: "Octave",
            daw_name: "OSC1 Octave",
        },
        Param::Osc1Detune => ParamConfig {
            range: ParameterRange::Linear(-8589934592i64, 8589934592i64),
            default: 0i64,
            unit: "st",
            label: "Detune",
            daw_name: "OSC1 Detune",
        },
        Param::Osc1WaveForm => ParamConfig {
            range: ParameterRange::Discrete(0i32, 2i32),
            default: 0i64,
            unit: "",
            label: "",
            daw_name: "OSC1 Waveform",
        },
        Param::Osc1PulseWidth => ParamConfig {
            range: ParameterRange::Linear(214748365i64, 4080218932i64),
            default: 2147483648i64,
            unit: "",
            label: "PW",
            daw_name: "OSC1 PulseWidth",
        },
        Param::Osc2Level => ParamConfig {
            range: ParameterRange::Linear(0i64, 4294967296i64),
            default: 4294967296i64,
            unit: "",
            label: "Osc2",
            daw_name: "OSC2 Level",
        },
        Param::Osc2Octave => ParamConfig {
            range: ParameterRange::Discrete(-3i32, 3i32),
            default: 0i64,
            unit: "",
            label: "Octave",
            daw_name: "OSC2 Octave",
        },
        Param::Osc2Detune => ParamConfig {
            range: ParameterRange::Linear(-8589934592i64, 8589934592i64),
            default: 0i64,
            unit: "st",
            label: "Detune",
            daw_name: "OSC2 Detune",
        },
        Param::Osc2WaveForm => ParamConfig {
            range: ParameterRange::Discrete(0i32, 2i32),
            default: 0i64,
            unit: "",
            label: "",
            daw_name: "OSC2 Waveform",
        },
        Param::Osc2PulseWidth => ParamConfig {
            range: ParameterRange::Linear(214748365i64, 4080218932i64),
            default: 2147483648i64,
            unit: "",
            label: "PW",
            daw_name: "OSC2 PulseWidth",
        },
        Param::LfoHostSync => ParamConfig {
            range: ParameterRange::Discrete(0i32, 1i32),
            default: 0i64,
            unit: "",
            label: "Sync",
            daw_name: "LFO Host sync",
        },
        Param::LfoKeyTrig => ParamConfig {
            range: ParameterRange::Discrete(0i32, 1i32),
            default: 0i64,
            unit: "",
            label: "Trig",
            daw_name: "LFO Key Retrig",
        },
        Param::LfoFreq => ParamConfig {
            range: ParameterRange::Logarithmic(214748365i64, 85899345920i64),
            default: 4294967296i64,
            unit: "Hz",
            label: "Freq",
            daw_name: "LFO freq",
        },
        Param::LfoWaveform => ParamConfig {
            range: ParameterRange::Discrete(2i32, 4i32),
            default: 8589934592i64,
            unit: "",
            label: "Waveform",
            daw_name: "LFO Waveform",
        },
        Param::LfoFilterModDepth => ParamConfig {
            range: ParameterRange::Linear(-4294967296i64, 4294967296i64),
            default: 0i64,
            unit: "",
            label: "LFO",
            daw_name: "Filter Cutoff LFO Mod",
        },
        Param::LfoOsc1DetuneDepth => ParamConfig {
            range: ParameterRange::Linear(0i64, 51539607552i64),
            default: 0i64,
            unit: "Semitones",
            label: "LFO",
            daw_name: "OSC1 Detune LFO Mod",
        },
        Param::MasterGain => ParamConfig {
            range: ParameterRange::Linear(0i64, 8589934592i64),
            default: 4294967296i64,
            unit: "dB",
            label: "Master",
            daw_name: "Master Gain",
        },
        Param::UnisonVoices => ParamConfig {
            range: ParameterRange::Discrete(1i32, 7i32),
            default: 4294967296i64,
            unit: "",
            label: "Voices",
            daw_name: "Unison voices",
        },
        Param::UnisonDetune => ParamConfig {
            range: ParameterRange::Linear(0i64, 2147483648i64),
            default: 214748365i64,
            unit: "st",
            label: "Detune",
            daw_name: "Unison detune",
        },
        Param::UnisonStereoSpread => ParamConfig {
            range: ParameterRange::Linear(0i64, 4294967296i64),
            default: 0i64,
            unit: "",
            label: "Spread",
            daw_name: "Unison stereo spread",
        },
        Param::PolyMode => ParamConfig {
            range: ParameterRange::Linear(4294967296i64, 8589934592i64),
            default: 8589934592i64,
            unit: "",
            label: "Mode",
            daw_name: "Mode",
        },
        Param::Portamento => ParamConfig {
            range: ParameterRange::Linear(0i64, 429496729600i64),
            default: 0i64,
            unit: "",
            label: "Porta",
            daw_name: "Portamento",
        },
    }
}

impl Param {
    /// This parameter's position in declaration order.
    pub fn index(&self) -> (i: usize)
        ensures
            i == param_index(*self),
            i < 35,
    {
        match self {
            Param::FilterCutoff => 0,
            Param::FilterResonance => 1,
            Param::FilterEnvModGain => 2,
            Param::FilterKeyTrack => 3,
            Param::FilterVelocityMod => 4,
            Param::AmpEnvAttack => 5,
            Param::AmpEnvDecay => 6,
            Param::AmpEnvSustain => 7,
            Param::AmpEnvRelease => 8,
            Param::FilterEnvAttack => 9,
            Param::FilterEnvDecay => 10,
            Param::FilterEnvSustain => 11,
            Param::FilterEnvRelease => 12,
            Param::Osc1Level => 13,
            Param::Osc1Octave => 14,
            Param::Osc1Detune => 15,
            Param::Osc1WaveForm => 16,
            Param::Osc1PulseWidth => 17,
            Param::Osc2Level => 18,
            Param::Osc2Octave => 19,
            Param::Osc2Detune => 20,
            Param::Osc2WaveForm => 21,
            Param::Osc2PulseWidth => 22,
            Param::LfoHostSync => 23,
            Param::LfoKeyTrig => 24,
            Param::LfoFreq => 25,
            Param::LfoWaveform => 26,
            Param::LfoFilterModDepth => 27,
            Param::LfoOsc1DetuneDepth => 28,
            Param::MasterGain => 29,
            Param::UnisonVoices => 30,
            Param::UnisonDetune => 31,
            Param::UnisonStereoSpread => 32,
            Param::PolyMode => 33,
            Param::Portamento => 34,
        }
    }

    /// The position as a signed integer.
    pub fn iindex(&self) -> (i: i32)
        ensures
            i == param_index(*self),
            0 <= i < 35,
    {
        self.index() as i32
    }

    /// The parameter at a declaration-order position.
    pub fn from_index(i: usize) -> (p: Param)
        requires
            i < 35,
        ensures
            param_index(p) == i,
    {
        if i == 0 {
            Param::FilterCutoff
        } else if i == 1 {
            Param::FilterResonance
        } else if i == 2 {
            Param::FilterEnvModGain
        } else if i == 3 {
            Param::FilterKeyTrack
        } else if i == 4 {
            Param::FilterVelocityMod
        } else if i == 5 {
            Param::AmpEnvAttack
        } else if i == 6 {
            Param::AmpEnvDecay
        } else if i == 7 {
            Param::AmpEnvSustain
        } else if i == 8 {
            Param::AmpEnvRelease
        } else if i == 9 {
            Param::FilterEnvAttack
        } else if i == 10 {
            Param::FilterEnvDecay
        } else if i == 11 {
            Param::FilterEnvSustain
        } else if i == 12 {
            Param::FilterEnvRelease
        } else if i == 13 {
            Param::Osc1Level
        } else if i == 14 {
            Param::Osc1Octave
        } else if i == 15 {
            Param::Osc1Detune
        } else if i == 16 {
            Param::Osc1WaveForm
        } else if i == 17 {
            Param::Osc1PulseWidth
        } else if i == 18 {
            Param::Osc2Level
        } else if i == 19 {
            Param::Osc2Octave
        } else if i == 20 {
            Param::Osc2Detune
        } else if i == 21 {
            Param::Osc2WaveForm
        } else if i == 22 {
            Param::Osc2PulseWidth
        } else if i == 23 {
            Param::LfoHostSync
        } else if i == 24 {
            Param::LfoKeyTrig
        } else if i == 25 {
            Param::LfoFreq
        } else if i == 26 {
            Param::LfoWaveform
        } else if i == 27 {
            Param::LfoFilterModDepth
        } else if i == 28 {
            Param::LfoOsc1DetuneDepth
        } else if i == 29 {
            Param::MasterGain
        } else if i == 30 {
            Param::UnisonVoices
        } else if i == 31 {
            Param::UnisonDetune
        } else if i == 32 {
            Param::UnisonStereoSpread
        } else if i == 33 {
            Param::PolyMode
        } else {
            Param::Portamento
        }
    }

    /// The parameter's declared range, default and display names.
    pub fn get_config(&self) -> (c: ParamConfig)
        ensures
            c == spec_get_config(*self),
            c.wf(),
    {
        match self {
            Param::FilterCutoff => ParamConfig {
                range: ParameterRange::Logarithmic(20 * ONE, 20000 * ONE),
                default: 4000 * ONE,
                unit: "Hz",
                label: "Cutoff",
                daw_name: "Filter Cutoff",
            },
            Param::FilterResonance => ParamConfig {
                range: ParameterRange::Linear(0, 3865470566),
                default: 429496730,
                unit: "",
                label: "Resonance",
                daw_name: "Filter Resonance",
            },
            Param::FilterEnvModGain => ParamConfig {
                range: ParameterRange::Linear(-ONE, ONE),
                default: 0,
                unit: "",
                label: "Env",
                daw_name: "Filter Env Mod",
            },
            Param::FilterKeyTrack => ParamConfig {
                range: ParameterRange::Linear(0, ONE),
                default: ONE,
                unit: "",
                label: "Key",
                daw_name: "Filter key track",
            },
            Param::FilterVelocityMod => ParamConfig {
                range: ParameterRange::Linear(0, ONE),
                default: ONE,
                unit: "",
                label: "Vel",
                daw_name: "Filter velocity mod",
            },
            Param::AmpEnvAttack => ParamConfig {
                range: ParameterRange::Logarithmic(4294967, 16 * ONE),
                default: 42949673,
                unit: "s",
                label: "A",
                daw_name: "Amp Env Attack",
            },
            Param::AmpEnvDecay => ParamConfig {
                range: ParameterRange::Logarithmic(4294967, 16 * ONE),
                default: 42949673,
                unit: "s",
                label: "D",
                daw_name: "Amp Env Decay",
            },
            Param::AmpEnvSustain => ParamConfig {
                range: ParameterRange::Linear(0, ONE),
                default: ONE,
                unit: "",
                label: "S",
                daw_name: "Amp Env Sustain",
            },
            Param::AmpEnvRelease => ParamConfig {
                range: ParameterRange::Logarithmic(4294967, 16 * ONE),
                default: 42949673,
                unit: "s",
                label: "R",
                daw_name: "Amp Env Release",
            },
            Param::FilterEnvAttack => ParamConfig {
                range: ParameterRange::Logarithmic(4294967, 16 * ONE),
                default: 42949673,
                unit: "s",
                label: "A",
                daw_name: "Filter Env Attack",
            },
            Param::FilterEnvDecay => ParamConfig {
                range: ParameterRange::Logarithmic(4294967, 16 * ONE),
                default: 42949673,
                unit: "s",
                label: "D",
                daw_name: "Filter Env Decay",
            },
            Param::FilterEnvSustain => ParamConfig {
                range: ParameterRange::Linear(0, ONE),
                default: ONE,
                unit: "",
                label: "S",
                daw_name: "Filter Env Sustain",
            },
            Param::FilterEnvRelease => ParamConfig {
                range: ParameterRange::Logarithmic(4294967, 16 * ONE),
                default: 42949673,
                unit: "s",
                label: "R",
                daw_name: "Filter Env Release",
            },
            Param::Osc1Level => ParamConfig {
                range: ParameterRange::Linear(0, ONE),
                default: ONE,
                unit: "",
                label: "Osc1",
                daw_name: "OSC1 Level",
            },
            Param::Osc1Octave => ParamConfig {
                range: ParameterRange::Discrete(-3, 3),
                default: 0,
                unit: "",
                label: "Octave",
                daw_name: "OSC1 Octave",
            },
            Param::Osc1Detune => ParamConfig {
                range: ParameterRange::Linear(-2 * ONE, 2 * ONE),
                default: 0,
                unit: "st",
                label: "Detune",
                daw_name: "OSC1 Detune",
            },
            Param::Osc1WaveForm => ParamConfig {
                range: ParameterRange::Discrete(0, 2),
                default: 0,
                unit: "",
                label: "",
                daw_name: "OSC1 Waveform",
            },
            Param::Osc1PulseWidth => ParamConfig {
                range: ParameterRange::Linear(214748365, 4080218932),
                default: 2147483648,
                unit: "",
                label: "PW",
                daw_name: "OSC1 PulseWidth",
            },
            Param::Osc2Level => ParamConfig {
                range: ParameterRange::Linear(0, ONE),
                default: ONE,
                unit: "",
                label: "Osc2",
                daw_name: "OSC2 Level",
            },
            Param::Osc2Octave => ParamConfig {
                range: ParameterRange::Discrete(-3, 3),
                default: 0,
                unit: "",
                label: "Octave",
                daw_name: "OSC2 Octave",
            },
            Param::Osc2Detune => ParamConfig {
                range: ParameterRange::Linear(-2 * ONE, 2 * ONE),
                default: 0,
                unit: "st",
                label: "Detune",
                daw_name: "OSC2 Detune",
            },
            Param::Osc2WaveForm => ParamConfig {
                range: ParameterRange::Discrete(0, 2),
                default: 0,
                unit: "",
                label: "",
                daw_name: "OSC2 Waveform",
            },
            Param::Osc2PulseWidth => ParamConfig {
                range: ParameterRange::Linear(214748365, 4080218932),
                default: 2147483648,
                unit: "",
                label: "PW",
                daw_name: "OSC2 PulseWidth",
            },
            Param::LfoHostSync => ParamConfig {
                range: ParameterRange::Discrete(0, 1),
                default: 0,
                unit: "",
                label: "Sync",
                daw_name: "LFO Host sync",
            },
            Param::LfoKeyTrig => ParamConfig {
                range: ParameterRange::Discrete(0, 1),
                default: 0,
                unit: "",
                label: "Trig",
                daw_name: "LFO Key Retrig",
            },
            Param::LfoFreq => ParamConfig {
                range: ParameterRange::Logarithmic(214748365, 20 * ONE),
                default: ONE,
                unit: "Hz",
                label: "Freq",
                daw_name: "LFO freq",
            },
            Param::LfoWaveform => ParamConfig {
                range: ParameterRange::Discrete(2, 4),
                default: 2 * ONE,
                unit: "",
                label: "Waveform",
                daw_name: "LFO Waveform",
            },
            Param::LfoFilterModDepth => ParamConfig {
                range: ParameterRange::Linear(-ONE, ONE),
                default: 0,
                unit: "",
                label: "LFO",
                daw_name: "Filter Cutoff LFO Mod",
            },
            Param::LfoOsc1DetuneDepth => ParamConfig {
                range: ParameterRange::Linear(0, 12 * ONE),
                default: 0,
                unit: "Semitones",
                label: "LFO",
                daw_name: "OSC1 Detune LFO Mod",
            },
            Param::MasterGain => ParamConfig {
                range: ParameterRange::Linear(0, 2 * ONE),
                default: ONE,
                unit: "dB",
                label: "Master",
                daw_name: "Master Gain",
            },
            Param::UnisonVoices => ParamConfig {
                range: ParameterRange::Discrete(1, 7),
                default: ONE,
                unit: "",
                label: "Voices",
                daw_name: "Unison voices",
            },
            Param::UnisonDetune => ParamConfig {
                range: ParameterRange::Linear(0, 2147483648),
                default: 214748365,
                unit: "st",
                label: "Detune",
                daw_name: "Unison detune",
            },
            Param::UnisonStereoSpread => ParamConfig {
                range: ParameterRange::Linear(0, ONE),
                default: 0,
                unit: "",
                label: "Spread",
                daw_name: "Unison stereo spread",
            },
            Param::PolyMode => ParamConfig {
                range: ParameterRange::Linear(ONE, 2 * ONE),
                default: 2 * ONE,
                unit: "",
                label: "Mode",
                daw_name: "Mode",
            },
            Param::Portamento => ParamConfig {
                range: ParameterRange::Linear(0, 100 * ONE),
                default: 0,
                unit: "",
                label: "Porta",
                daw_name: "Portamento",
            },
        }
    }
}

/// A parameter's value range: linear or logarithmic over Q32.32 plugin
/// values, or a small discrete integer span.
#[derive(Clone, Copy, Debug, PartialEq, Eq, Structural)]
pub enum ParameterRange {
    Linear(i64, i64),
    Discrete(i32, i32),
    Logarithmic(i64, i64),
}

impl ParameterRange {
    /// A usable range: non-empty, within the working magnitudes, and
    /// positive where a logarithm is taken.
    pub open spec fn wf(self) -> bool {
        match self {
            ParameterRange::Linear(min, max) => -562949953421312 <= min < max <= 562949953421312,
            ParameterRange::Discrete(min, max) => -128 <= min < max <= 128,
            ParameterRange::Logarithmic(min, max) => 1 <= min < max <= 562949953421312,
        }
    }

    /// Map a plugin value onto the host's normalised `[0, ONE]` scale,
    /// clamping into the declared range.
    pub fn map_to_daw(&self, x: i64) -> (d: i64)
        requires
            self.wf(),
        ensures
            0 <= d <= ONE,
            self matches ParameterRange::Linear(min, max) ==> d == fdiv(
                spec_clamp(x as int, min as int, max as int) - (min as int),
                (max as int) - (min as int),
            ),
            self matches ParameterRange::Discrete(min, max) ==> d == fdiv(
                spec_clamp(x as int, (min as int) * one(), (max as int) * one()) - (min as int)
                    * one(),
                (max as int) * one() - (min as int) * one(),
            ),
    {
        match self {
            ParameterRange::Linear(min, max) => {
                let c = clamp64(x, *min, *max);
                let num = c - *min;
                let den = *max - *min;
                let r = fixdiv(num, den);
                proof {
                    lemma_ratio_unit(num as int, den as int);
                }
                r
            },
            ParameterRange::Discrete(min, max) => {
                let lo = (*min as i64) * ONE;
                let hi = (*max as i64) * ONE;
                let c = clamp64(x, lo, hi);
                let num = c - lo;
                let den = hi - lo;
                let r = fixdiv(num, den);
                proof {
                    lemma_ratio_unit(num as int, den as int);
                }
                r
            },
            ParameterRange::Logarithmic(min, max) => {
                let c = clamp64(x, *min, *max);
                let l = log2_fixed(c);
                let lmin = log2_fixed(*min);
                let lmax = log2_fixed(*max);
                if lmax <= lmin {
                    0
                } else {
                    let num = clamp64(l - lmin, 0, lmax - lmin);
                    let r = fixdiv(num, lmax - lmin);
                    proof {
                        lemma_ratio_unit(num as int, (lmax - lmin) as int);
                    }
                    r
                }
            },
        }
    }

    /// The lower endpoint as a plugin value.
    pub open spec fn range_lo(self) -> int {
        match self {
            ParameterRange::Linear(min, _) => min as int,
            ParameterRange::Discrete(min, _) => (min as int) * one(),
            ParameterRange::Logarithmic(min, _) => min as int,
        }
    }

    /// The upper endpoint as a plugin value.
    pub open spec fn range_hi(self) -> int {
        match self {
            ParameterRange::Linear(_, max) => max as int,
            ParameterRange::Discrete(_, max) => (max as int) * one(),
            ParameterRange::Logarithmic(_, max) => max as int,
        }
    }

    /// The range's endpoints as plugin values.
    pub fn range(&self) -> (r: (i64, i64))
        requires
            self.wf(),
        ensures
            r.0 == self.range_lo(),
            r.1 == self.range_hi(),
            r.0 < r.1,
    {
        match self {
            ParameterRange::Linear(min, max) => (*min, *max),
            ParameterRange::Discrete(min, max) => ((*min as i64) * ONE, (*max as i64) * ONE),
            ParameterRange::Logarithmic(min, max) => (*min, *max),
        }
    }

    /// Map a normalised host value in `[0, ONE]` back to a plugin value
    /// inside the declared range; discrete ranges round to the nearest
    /// step.
    pub fn map_to_plugin(&self, daw_value: i64) -> (x: i64)
        requires
            self.wf(),
            0 <= daw_value <= ONE,
        ensures
            self.range_lo() <= x <= self.range_hi(),
            self matches ParameterRange::Linear(min, max) ==> x == spec_clamp(
                (min as int) + fmul((max as int) - (min as int), daw_value as int),
                min as int,
                max as int,
            ),
            self matches ParameterRange::Discrete(min, max) ==> x == spec_clamp(
                (min as int) * one() + (fmul((max as int) * one() - (min as int) * one(),
                    daw_value as int) + one() / 2) / one() * one(),
                (min as int) * one(),
                (max as int) * one(),
            ),
    {
        match self {
            ParameterRange::Linear(min, max) => {
                let span = *max - *min;
                let o = crate::fixed::fixmul_wide(span, daw_value);
                proof {
                    lemma_offset_in_span(span as int, daw_value as int);
                }
                clamp64(*min + o, *min, *max)
            },
            ParameterRange::Discrete(min, max) => {
                let lo = (*min as i64) * ONE;
                let hi = (*max as i64) * ONE;
                let span = hi - lo;
                let o = crate::fixed::fixmul_wide(span, daw_value);
                proof {
                    lemma_offset_in_span(span as int, daw_value as int);
                }
                let rounded = ((o + ONE / 2) / ONE) * ONE;
                clamp64(lo + rounded, lo, hi)
            },
            ParameterRange::Logarithmic(min, max) => {
                let lmin = log2_fixed(*min);
                let lmax = log2_fixed(*max);
                let lspan = if lmax > lmin {
                    lmax - lmin
                } else {
                    0
                };
                let o = crate::fixed::fixmul_wide(lspan, daw_value);
                proof {
                    lemma_offset_in_span(lspan as int, daw_value as int);
                }
                let l = clamp64(lmin + o, 0, 62 * ONE);
                let e = exp2_full(l);
                clamp64(e, *min, *max)
            },
        }
    }
}

/// Law: mapping a linear-range plugin value to the host's normalised
/// scale and back loses at most one normalisation step: the result never
/// exceeds the original and stays within `span / ONE + 2` below it.
pub proof fn lemma_linear_roundtrip(min: int, max: int, x: int)
    requires
        -562949953421312 <= min < max <= 562949953421312,
        min <= x <= max,
    ensures
        ({
            let d = fdiv(x - min, max - min);
            let back = spec_clamp(min + fmul(max - min, d), min, max);
            &&& back <= x
            &&& back >= x - (max - min) / one() - 2
        }),
{
    let span = max - min;
    let num = (x - min) * one();
    let d = fdiv(x - min, span);
    assert(d == num / span);
    assert(span * (num / span) <= num && span * (num / span) > num - span) by (nonlinear_arith)
        requires
            0 < span,
            0 <= num,
    ;
    let p = span * d;
    assert(0 <= d) by (nonlinear_arith)
        requires
            0 <= num,
            0 < span,
            d == num / span,
    ;
    assert(0 <= p) by (nonlinear_arith)
        requires
            p == span * d,
            0 <= d,
            0 < span,
    ;
    crate::fixed::lemma_tdiv_approx(p);
    let back_off = fmul(span, d);
    assert(one() * back_off <= p && one() * back_off > p - one());
    assert(back_off <= x - min) by (nonlinear_arith)
        requires
            one() * back_off <= p,
            p <= (x - min) * one(),
            one() == 4294967296,
    ;
    assert(back_off >= x - min - span / one() - 2) by (nonlinear_arith)
        requires
            one() * back_off > p - one(),
            p > (x - min) * one() - span,
            one() == 4294967296,
    ;
}

/// `num / den` stays in the unit interval when `0 <= num <= den`.
proof fn lemma_ratio_unit(num: int, den: int)
    requires
        0 <= num <= den,
        0 < den,
    ensures
        0 <= fdiv(num, den) <= one(),
        num <= den * 0x40000000,
{
    assert(0 <= num * one() / den <= one() && num <= den * 0x40000000) by (nonlinear_arith)
        requires
            0 <= num <= den,
            0 < den,
            one() == 4294967296,
    ;
}

/// A unit fraction of a non-negative span stays within it.
proof fn lemma_offset_in_span(span: int, d: int)
    requires
        0 <= d <= one(),
        0 <= span <= 0x40000 * one(),
    ensures
        0 <= fmul(span, d) <= span,
{
    assert(0 <= span * d <= span * one()) by (nonlinear_arith)
        requires
            0 <= d <= one(),
            0 <= span,
    ;
    assert(span * d <= span * one() ==> span * d / one() <= span) by (nonlinear_arith)
        requires
            one() == 4294967296,
    ;
    crate::fixed::lemma_tdiv_approx(span * d);
}

/// `2^(x / ONE)` over the full working exponent range `[0, 62]`.
fn exp2_full(x: i64) -> (r: i64)
    requires
        0 <= x <= 62 * (ONE as int),
    ensures
        1 <= r,
{
    let q: i64 = x / ONE;
    let f: i64 = x % ONE;
    let base = crate::fixed::exp2_frac(f);
    let mut r: i64 = base;
    let mut k: i64 = 0;
    while k < q
        invariant
            0 <= k <= q <= 62,
            ONE <= base <= 2 * ONE,
            1 <= r <= 0x4000000000000000,
        decreases q - k,
    {
        if r > 0x2000000000000000 {
            r = 0x4000000000000000;
        } else {
            r = r * 2;
        }
        k = k + 1;
    }
    r
}

/// A parameter's full configuration: range, default value and names.
pub struct ParamConfig {
    pub range: ParameterRange,
    pub default: i64,
    pub unit: &'static str,
    pub label: &'static str,
    pub daw_name: &'static str,
}

impl ParamConfig {
    pub open spec fn wf(self) -> bool {
        self.range.wf()
    }

    pub fn map_to_daw(&self, x: i64) -> (d: i64)
        requires
            self.wf(),
        ensures
            0 <= d <= ONE,
    {
        self.range.map_to_daw(x)
    }

    pub fn map_to_ui(&self, daw_value: i64) -> (x: i64)
        requires
            self.wf(),
            0 <= daw_value <= ONE,
        ensures
            self.range.range_lo() <= x <= self.range.range_hi(),
    {
        self.range.map_to_plugin(daw_value)
    }

    pub fn map_to_plugin(&self, daw_value: i64) -> (x: i64)
        requires
            self.wf(),
            0 <= daw_value <= ONE,
        ensures
            self.range.range_lo() <= x <= self.range.range_hi(),
    {
        self.range.map_to_plugin(daw_value)
    }
}

} // verus!
