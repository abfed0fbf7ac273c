//! What the device asks of its audio codec, whatever chips it is made of.

use vstd::prelude::*;

verus! {

/// The control side of an audio codec.
pub trait AudioCodec {
    type Error;

    /// Sets the output volume to `volume` percent of full scale.
    fn set_output_volume(&mut self, volume: u8) -> Result<(), Self::Error>;

    /// Switches the input on or off.
    fn enable_input(&mut self, enable: bool) -> Result<(), Self::Error>;

    /// Switches the output on or off.
    fn enable_output(&mut self, enable: bool) -> Result<(), Self::Error>;

    /// Whether the input is recorded as enabled.
    fn input_enabled(&self) -> bool;

    /// Whether the output is recorded as enabled.
    fn output_enabled(&self) -> bool;

    /// Whether one input channel carries the playback reference.
    fn input_reference(&self) -> bool;
}

} // verus!
