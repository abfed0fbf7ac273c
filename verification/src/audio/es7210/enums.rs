//! Gain settings of the ES7210 microphone amplifiers.

use vstd::prelude::*;

verus! {

/// A gain setting of a microphone amplifier.
#[derive(Debug, Clone, Copy, PartialEq, Eq, Structural)]
pub enum MicGain {
    Gain0db,
    Gain3db,
    Gain6db,
    Gain9db,
    Gain12db,
    Gain15db,
    Gain18db,
    Gain21db,
    Gain24db,
    Gain27db,
    Gain30db,
    Gain33db,
    Gain34_5db,
    Gain36db,
    Gain37_5db,
}

impl MicGain {
    /// The number that stands for this gain in a gain register: the settings
    /// count up from 0 in steps of one.
    pub open spec fn spec_value(&self) -> u8 {
        match self {
            MicGain::Gain0db => 0,
            MicGain::Gain3db => 1,
            MicGain::Gain6db => 2,
            MicGain::Gain9db => 3,
            MicGain::Gain12db => 4,
            MicGain::Gain15db => 5,
            MicGain::Gain18db => 6,
            MicGain::Gain21db => 7,
            MicGain::Gain24db => 8,
            MicGain::Gain27db => 9,
            MicGain::Gain30db => 10,
            MicGain::Gain33db => 11,
            MicGain::Gain34_5db => 12,
            MicGain::Gain36db => 13,
            MicGain::Gain37_5db => 14,
        }
    }

    /// The value to write into a gain register for this setting.
    #[verifier::when_used_as_spec(spec_value)]
    pub fn value(&self) -> (value: u8)
        ensures
            value == self.spec_value(),
            value <= 14,
    {
        match self {
            MicGain::Gain0db => 0,
            MicGain::Gain3db => 1,
            MicGain::Gain6db => 2,
            MicGain::Gain9db => 3,
            MicGain::Gain12db => 4,
            MicGain::Gain15db => 5,
            MicGain::Gain18db => 6,
            MicGain::Gain21db => 7,
            MicGain::Gain24db => 8,
            MicGain::Gain27db => 9,
            MicGain::Gain30db => 10,
            MicGain::Gain33db => 11,
            MicGain::Gain34_5db => 12,
            MicGain::Gain36db => 13,
            MicGain::Gain37_5db => 14,
        }
    }
}

} // verus!
