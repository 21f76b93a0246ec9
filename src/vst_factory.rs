use vstd::prelude::*;
use vstd::string::StringExecFns;

verus! {

/// Class flags of an audio processor.
#[derive(Clone, Copy, Debug, PartialEq, Eq, Structural)]
pub enum AudioProcessorFlag {
    Distributable,
    SimpleModeSupported,
}

impl AudioProcessorFlag {
    /// The flag's bit.
    pub open spec fn spec_bit(self) -> u32 {
        match self {
            AudioProcessorFlag::Distributable => 1,
            AudioProcessorFlag::SimpleModeSupported => 2,
        }
    }

    pub fn bit(&self) -> (r: u32)
        ensures
            r == self.spec_bit(),
    {
        match self {
            AudioProcessorFlag::Distributable => 1,
            AudioProcessorFlag::SimpleModeSupported => 2,
        }
    }
}

#[derive(Clone, Copy, Debug, PartialEq, Eq, Structural)]
pub enum AudioProcessorType {
    Synth,
}

impl AudioProcessorType {
    /// The subcategory string under which the host lists this type.
    pub fn subcategories(&self) -> (r: &'static str)
        ensures
            r@ == "Instrument|Synth"@,
    {
        match self {
            AudioProcessorType::Synth => "Instrument|Synth",
        }
    }
}

#[derive(Clone)]
pub struct FactoryInfo {
    pub vendor: String,
    pub url: String,
    pub email: String,
}

#[derive(Clone)]
pub struct AudioProcessorInfo {
    pub name: String,
    pub version: String,
    pub typ: AudioProcessorType,
    pub is_distributable: bool,
    pub simple_mode_supported: bool,
}

/// The class flags of a processor: one bit per flag that its info sets.
pub fn class_flags(info: &AudioProcessorInfo) -> (r: u32)
    ensures
        r == (if info.is_distributable {
            1u32
        } else {
            0u32
        }) | (if info.simple_mode_supported {
            2u32
        } else {
            0u32
        }),
{
    let d: u32 = if info.is_distributable {
        AudioProcessorFlag::Distributable.bit()
    } else {
        0
    };
    let s: u32 = if info.simple_mode_supported {
        AudioProcessorFlag::SimpleModeSupported.bit()
    } else {
        0
    };
    d | s
}

/// The name under which a processor's controller class is registered.
pub fn controller_name(info: &AudioProcessorInfo) -> (r: String)
    ensures
        r@ == info.name@ + " Controller"@,
{
    let mut s = info.name.clone();
    s.append(" Controller");
    s
}

} // verus!
