use vstd::prelude::*;
use vstd::string::StringExecFns;

verus! {

/// Subcategories of effects.
#[derive(Clone, Copy, Debug, PartialEq, Eq, Structural)]
pub enum Fx {
    /// Scope, FFT-Display, Loudness Processing...
    Analyzer,
    /// Delay, Multi-tap Delay, Ping-Pong Delay...
    Delay,
    /// Amp Simulator, Sub-Harmonic, SoftClipper...
    Distortion,
    /// Compressor, Expander, Gate, Limiter, Maximizer, Tape Simulator, EnvelopeShaper...
    Dynamics,
    /// Equalization, Graphical EQ...
    EQ,
    /// WahWah, ToneBooster, Specific Filter,...
    Filter,
    /// Fx which could be loaded as Instrument too
    Instrument,
    /// Fx which could be loaded as Instrument too and is external (wrapped Hardware)
    InstrumentExternal,
    /// MonoToStereo, StereoEnhancer,...
    Spatial,
    /// Tone Generator, Noise Generator...
    Generator,
    /// Dither, Noise Shaping,...
    Mastering,
    /// Phaser, Flanger, Chorus, Tremolo, Vibrato, AutoPan, Rotary, Cloner...
    Modulation,
    /// Pitch Processing, Pitch Correction, Vocal Tuning...
    PitchShift,
    /// Denoiser, Declicker,...
    Restoration,
    /// Reverberation, Room Simulation, Convolution Reverb...
    Reverb,
    /// dedicated to surround processing: LFE Splitter, Bass Manager...
    Surround,
    /// Volume, Mixer, Tuner...
    Tools,
    /// using Network
    Network,
    /// others type (not categorized)
    Other,
}

/// Subcategories of instruments.
#[derive(Clone, Copy, Debug, PartialEq, Eq, Structural)]
pub enum Instrument {
    /// Instrument for Drum sounds
    Drum,
    /// External Instrument (wrapped Hardware)
    External,
    /// Instrument for Piano sounds
    Piano,
    /// Instrument based on Samples
    Sampler,
    /// Instrument based on Synthesis
    Synth,
    /// Instrument based on Synthesis and Samples
    SynthSampler,
    /// Effect used as instrument (sound generator), not as insert
    Other,
}

/// The category under which a host lists an audio processor.
#[derive(Clone, Copy, Debug, PartialEq, Eq, Structural)]
pub enum AudioProcessorCategory {
    Fx(Fx),
    Instrument(Instrument),
    /// used for SurroundPanner
    Spatial,
    /// used for SurroundPanner and as insert effect
    SpatialFx,
    /// indicates that it supports only realtime process call, no processing faster than realtime
    OnlyRealTime,
    /// used for plug-in offline processing  (will not work as normal insert plug-in)
    OnlyOfflineProcess,
    /// used for plug-ins that require ARA to operate (will not work as normal insert plug-in)
    OnlyARA,
    /// will be NOT used for plug-in offline processing (will work as normal insert plug-in)
    NoOfflineProcess,
    /// used for Mixconverter/Up-Mixer/Down-Mixer
    UpDownMix,
    /// Meter, Scope, FFT-Display, not selectable as insert plug-in
    Analyzer,
    /// used for Ambisonics channel (FX or Panner/Mixconverter/Up-Mixer/Down-Mixer when combined with other category)
    Ambisonics,
    /// used for Mono only plug-in [optional]
    Mono,
    /// used for Stereo only plug-in [optional]
    Stereo,
    /// used for Surround only plug-in [optional]
    Surround,
}

impl Fx {
    /// The variant's name.
    pub open spec fn spec_name(self) -> Seq<char> {
        match self {
            Fx::Analyzer => "Analyzer"@,
            Fx::Delay => "Delay"@,
            Fx::Distortion => "Distortion"@,
            Fx::Dynamics => "Dynamics"@,
            Fx::EQ => "EQ"@,
            Fx::Filter => "Filter"@,
            Fx::Instrument => "Instrument"@,
            Fx::InstrumentExternal => "InstrumentExternal"@,
            Fx::Spatial => "Spatial"@,
            Fx::Generator => "Generator"@,
            Fx::Mastering => "Mastering"@,
            Fx::Modulation => "Modulation"@,
            Fx::PitchShift => "PitchShift"@,
            Fx::Restoration => "Restoration"@,
            Fx::Reverb => "Reverb"@,
            Fx::Surround => "Surround"@,
            Fx::Tools => "Tools"@,
            Fx::Network => "Network"@,
            Fx::Other => "Other"@,
        }
    }

    pub fn name(&self) -> (r: &'static str)
        ensures
            r@ == self.spec_name(),
    {
        match self {
            Fx::Analyzer => "Analyzer",
            Fx::Delay => "Delay",
            Fx::Distortion => "Distortion",
            Fx::Dynamics => "Dynamics",
            Fx::EQ => "EQ",
            Fx::Filter => "Filter",
            Fx::Instrument => "Instrument",
            Fx::InstrumentExternal => "InstrumentExternal",
            Fx::Spatial => "Spatial",
            Fx::Generator => "Generator",
            Fx::Mastering => "Mastering",
            Fx::Modulation => "Modulation",
            Fx::PitchShift => "PitchShift",
            Fx::Restoration => "Restoration",
            Fx::Reverb => "Reverb",
            Fx::Surround => "Surround",
            Fx::Tools => "Tools",
            Fx::Network => "Network",
            Fx::Other => "Other",
        }
    }
}

impl Instrument {
    /// The variant's name.
    pub open spec fn spec_name(self) -> Seq<char> {
        match self {
            Instrument::Drum => "Drum"@,
            Instrument::External => "External"@,
            Instrument::Piano => "Piano"@,
            Instrument::Sampler => "Sampler"@,
            Instrument::Synth => "Synth"@,
            Instrument::SynthSampler => "SynthSampler"@,
            Instrument::Other => "Other"@,
        }
    }

    pub fn name(&self) -> (r: &'static str)
        ensures
            r@ == self.spec_name(),
    {
        match self {
            Instrument::Drum => "Drum",
            Instrument::External => "External",
            Instrument::Piano => "Piano",
            Instrument::Sampler => "Sampler",
            Instrument::Synth => "Synth",
            Instrument::SynthSampler => "SynthSampler",
            Instrument::Other => "Other",
        }
    }
}

impl AudioProcessorCategory {
    /// The variant's name.
    pub open spec fn spec_name_plain(self) -> Seq<char> {
        match self {
            AudioProcessorCategory::Fx(_) => "Fx"@,
            AudioProcessorCategory::Instrument(_) => "Instrument"@,
            AudioProcessorCategory::Spatial => "Spatial"@,
            AudioProcessorCategory::SpatialFx => "SpatialFx"@,
            AudioProcessorCategory::OnlyRealTime => "OnlyRealTime"@,
            AudioProcessorCategory::OnlyOfflineProcess => "OnlyOfflineProcess"@,
            AudioProcessorCategory::OnlyARA => "OnlyARA"@,
            AudioProcessorCategory::NoOfflineProcess => "NoOfflineProcess"@,
            AudioProcessorCategory::UpDownMix => "UpDownMix"@,
            AudioProcessorCategory::Analyzer => "Analyzer"@,
            AudioProcessorCategory::Ambisonics => "Ambisonics"@,
            AudioProcessorCategory::Mono => "Mono"@,
            AudioProcessorCategory::Stereo => "Stereo"@,
            AudioProcessorCategory::Surround => "Surround"@,
        }
    }

    pub fn name_plain(&self) -> (r: &'static str)
        ensures
            r@ == self.spec_name_plain(),
    {
        match self {
            AudioProcessorCategory::Fx(_) => "Fx",
            AudioProcessorCategory::Instrument(_) => "Instrument",
            AudioProcessorCategory::Spatial => "Spatial",
            AudioProcessorCategory::SpatialFx => "SpatialFx",
            AudioProcessorCategory::OnlyRealTime => "OnlyRealTime",
            AudioProcessorCategory::OnlyOfflineProcess => "OnlyOfflineProcess",
            AudioProcessorCategory::OnlyARA => "OnlyARA",
            AudioProcessorCategory::NoOfflineProcess => "NoOfflineProcess",
            AudioProcessorCategory::UpDownMix => "UpDownMix",
            AudioProcessorCategory::Analyzer => "Analyzer",
            AudioProcessorCategory::Ambisonics => "Ambisonics",
            AudioProcessorCategory::Mono => "Mono",
            AudioProcessorCategory::Stereo => "Stereo",
            AudioProcessorCategory::Surround => "Surround",
        }
    }
}

/// The category string a host expects: the main category, then `|` and
/// the subcategory where there is one.
pub open spec fn category_text(cat: AudioProcessorCategory) -> Seq<char> {
    match cat {
        AudioProcessorCategory::Fx(fx) => "Fx"@ + match fx {
            Fx::Other => Seq::<char>::empty(),
            _ => "|"@ + fx.spec_name(),
        },
        AudioProcessorCategory::Instrument(instr) => "Instrument"@ + match instr {
            Instrument::Other => Seq::<char>::empty(),
            Instrument::SynthSampler => "|Synth|Sampler"@,
            _ => "|"@ + instr.spec_name(),
        },
        AudioProcessorCategory::SpatialFx => "Spatial|Fx"@,
        AudioProcessorCategory::OnlyRealTime => "OnlyRT"@,
        AudioProcessorCategory::UpDownMix => "Up-Downmix"@,
        _ => "|"@ + cat.spec_name_plain(),
    }
}

pub fn to_vst_category_string(cat: &AudioProcessorCategory) -> (r: String)
    ensures
        r@ == category_text(*cat),
{
    match cat {
        AudioProcessorCategory::Fx(fx) => {
            let mut s = String::from_str("Fx");
            match fx {
                Fx::Other => {
                    assert(s@ =~= "Fx"@ + Seq::<char>::empty());
                },
                _ => {
                    s.append("|");
                    s.append(fx.name());
                    assert(s@ =~= "Fx"@ + ("|"@ + fx.spec_name()));
                },
            }
            s
        },
        AudioProcessorCategory::Instrument(instr) => {
            let mut s = String::from_str("Instrument");
            match instr {
                Instrument::Other => {
                    assert(s@ =~= "Instrument"@ + Seq::<char>::empty());
                },
                Instrument::SynthSampler => {
                    s.append("|Synth|Sampler");
                },
                _ => {
                    s.append("|");
                    s.append(instr.name());
                    assert(s@ =~= "Instrument"@ + ("|"@ + instr.spec_name()));
                },
            }
            s
        },
        AudioProcessorCategory::SpatialFx => String::from_str("Spatial|Fx"),
        AudioProcessorCategory::OnlyRealTime => String::from_str("OnlyRT"),
        AudioProcessorCategory::UpDownMix => String::from_str("Up-Downmix"),
        _ => {
            let mut s = String::from_str("|");
            s.append(cat.name_plain());
            s
        },
    }
}

} // verus!
