//! The codec of the board: an ES7210 for the microphones and an ES8311 for
//! the speaker.

use vstd::prelude::*;

use crate::audio::audio_codec::AudioCodec;
use crate::audio::es7210::es7210::{Error, Es7210};
use crate::audio::es8311::es8311::{
    close_program, enabled_from, volume_program, Es8311, ADDR as ES8311_ADDR,
};
use crate::common::i2c::{continues, extended_by, DelayUs, I2cBus, Transfer};

verus! {

/// The output volume, in percent, when none is stored.
pub const DEFAULT_OUTPUT_VOLUME: u8 = 30;

/// What the settings store holds of the output volume.
#[derive(Copy, Clone, Debug, PartialEq, Eq, Structural)]
pub enum StoredVolume {
    /// The store could not be opened.
    Unavailable,
    /// The store holds no volume.
    Missing,
    /// The store holds this volume.
    Value(u8),
}

/// Why a call on the codec failed.
#[derive(Debug)]
pub enum CodecError<E> {
    /// The microphone converter failed.
    Input(Error<E>),
    /// The speaker codec failed with this bus error.
    Output(E),
}

/// The volume to start with when the current one is `current` and the
/// store holds `stored`: a stored volume above 0 wins, a stored 0 and a
/// store that cannot be opened give the default, and a store without a
/// volume leaves the current one.
pub open spec fn spec_starting_volume(current: u8, stored: StoredVolume) -> u8 {
    match stored {
        StoredVolume::Unavailable => DEFAULT_OUTPUT_VOLUME,
        StoredVolume::Missing => current,
        StoredVolume::Value(volume) => if volume == 0 {
            DEFAULT_OUTPUT_VOLUME
        } else {
            volume
        },
    }
}

/// The volume to start with; see `spec_starting_volume`.
pub fn starting_volume(current: u8, stored: StoredVolume) -> (volume: u8)
    ensures
        volume == spec_starting_volume(current, stored),
{
    match stored {
        StoredVolume::Unavailable => DEFAULT_OUTPUT_VOLUME,
        StoredVolume::Missing => current,
        StoredVolume::Value(volume) => if volume == 0 {
            DEFAULT_OUTPUT_VOLUME
        } else {
            volume
        },
    }
}

/// The two chips and what the device remembers of them.
pub struct XiaozhiAudioCodec<I2C: I2cBus> {
    input_codec: Es7210<I2C>,
    output_codec: Es8311<I2C>,
    input_enabled: bool,
    output_enabled: bool,
    output_volume: u8,
    input_reference: bool,
}

impl<I2C: I2cBus> XiaozhiAudioCodec<I2C> {
    /// Every transaction that completed on the microphone converter's bus.
    pub closed spec fn input_log(&self) -> Seq<Transfer> {
        self.input_codec.bus_log()
    }

    /// Every transaction that completed on the speaker codec's bus.
    pub closed spec fn output_log(&self) -> Seq<Transfer> {
        self.output_codec.bus_log()
    }

    /// Whether the microphone converter is marked as enabled.
    pub closed spec fn input_chip_enabled(&self) -> bool {
        self.input_codec.spec_is_enabled()
    }

    /// Whether the speaker codec is open.
    pub closed spec fn output_chip_open(&self) -> bool {
        self.output_codec.spec_is_open()
    }

    /// The output volume that the codec remembers, in percent.
    pub closed spec fn spec_output_volume(&self) -> u8 {
        self.output_volume
    }

    /// Whether the input is recorded as enabled.
    pub closed spec fn input_on(&self) -> bool {
        self.input_enabled
    }

    /// Whether the output is recorded as enabled.
    pub closed spec fn output_on(&self) -> bool {
        self.output_enabled
    }

    /// Whether one input channel is recorded as the playback reference.
    pub closed spec fn has_input_reference(&self) -> bool {
        self.input_reference
    }

    /// Whether `self` and `earlier` remember the same of the two chips.
    pub open spec fn same_flags(&self, earlier: &Self) -> bool {
        &&& self.input_on() == earlier.input_on()
        &&& self.output_on() == earlier.output_on()
        &&& self.spec_output_volume() == earlier.spec_output_volume()
        &&& self.has_input_reference() == earlier.has_input_reference()
    }

    /// Sets both chips up, the speaker codec on `es8311_i2c` first, then
    /// the microphone converter on `es7210_i2c`. A chip that fails to come
    /// up is kept as it is; the codec is made all the same. Nothing is
    /// enabled yet and the volume is 0.
    pub fn new<D: DelayUs>(es8311_i2c: I2C, es7210_i2c: I2C, delay: &mut D) -> (codec: Self)
        ensures
            !codec.input_on(),
            !codec.output_on(),
            codec.spec_output_volume() == 0,
            codec.has_input_reference(),
            !codec.input_chip_enabled(),
            !codec.output_chip_open(),
    {
        let mut es8311 = Es8311::new(es8311_i2c);
        let _ = es8311.init(delay);
        let mut es7210 = Es7210::new(es7210_i2c);
        let _ = es7210.open();
        XiaozhiAudioCodec {
            input_codec: es7210,
            output_codec: es8311,
            input_enabled: false,
            output_enabled: false,
            output_volume: 0,
            input_reference: true,
        }
    }

    /// The microphone converter.
    pub fn input_codec(&self) -> (chip: &Es7210<I2C>)
        ensures
            chip.bus_log() == self.input_log(),
            chip.spec_is_enabled() == self.input_chip_enabled(),
    {
        &self.input_codec
    }

    /// The speaker codec.
    pub fn output_codec(&self) -> (chip: &Es8311<I2C>)
        ensures
            chip.bus_log() == self.output_log(),
            chip.spec_is_open() == self.output_chip_open(),
    {
        &self.output_codec
    }

    /// The output volume that `start` settled on, in percent.
    pub fn output_volume(&self) -> (volume: u8)
        ensures
            volume == self.spec_output_volume(),
    {
        self.output_volume
    }

    /// Starts the codec: settles the output volume from what the store
    /// holds, then enables the input and the output. The volume is only
    /// remembered; `set_output_volume` sends it to the chip.
    pub fn start(&mut self, stored: StoredVolume) -> (result: Result<(), CodecError<I2C::Error>>)
        ensures
            final(self).spec_output_volume() == spec_starting_volume(
                old(self).spec_output_volume(),
                stored,
            ),
            final(self).input_on(),
            final(self).output_on() == (old(self).output_on() || result is Ok),
            final(self).has_input_reference() == old(self).has_input_reference(),
            final(self).input_log() == old(self).input_log(),
            final(self).input_chip_enabled() == (old(self).input_chip_enabled() || !old(
                self,
            ).input_on()),
            continues(old(self).output_log(), final(self).output_log()),
            result is Ok ==> {
                &&& !old(self).output_on() ==> final(self).output_chip_open() && enabled_from(
                    old(self).output_log(),
                    final(self).output_log(),
                )
                &&& old(self).output_on() ==> final(self).output_log() == old(self).output_log()
            },
            result matches Err(e) ==> e is Output,
    {
        self.output_volume = starting_volume(self.output_volume, stored);
        match self.enable_input(true) {
            Ok(()) => {},
            Err(e) => {
                return Err(e);
            },
        }
        self.enable_output(true)
    }
}

impl<I2C: I2cBus> AudioCodec for XiaozhiAudioCodec<I2C> {
    type Error = CodecError<I2C::Error>;

    /// Sends the volume to the speaker codec.
    fn set_output_volume(&mut self, volume: u8) -> (result: Result<(), CodecError<I2C::Error>>)
        ensures
            final(self).same_flags(old(self)),
            final(self).input_log() == old(self).input_log(),
            final(self).input_chip_enabled() == old(self).input_chip_enabled(),
            final(self).output_chip_open() == old(self).output_chip_open(),
            continues(old(self).output_log(), final(self).output_log()),
            result is Ok ==> extended_by(
                old(self).output_log(),
                final(self).output_log(),
                ES8311_ADDR,
                volume_program(volume),
            ),
            result matches Err(e) ==> e is Output,
    {
        match self.output_codec.set_voice_volume(volume) {
            Ok(()) => Ok(()),
            Err(e) => Err(CodecError::Output(e)),
        }
    }

    /// Marks the microphone converter as enabled or disabled, unless the
    /// codec already remembers the input in the state asked for, and
    /// remembers the new state.
    fn enable_input(&mut self, enable: bool) -> (result: Result<(), CodecError<I2C::Error>>)
        ensures
            result is Ok,
            final(self).input_on() == enable,
            final(self).output_on() == old(self).output_on(),
            final(self).spec_output_volume() == old(self).spec_output_volume(),
            final(self).has_input_reference() == old(self).has_input_reference(),
            final(self).input_log() == old(self).input_log(),
            final(self).output_log() == old(self).output_log(),
            final(self).output_chip_open() == old(self).output_chip_open(),
            final(self).input_chip_enabled() == if enable == old(self).input_on() {
                old(self).input_chip_enabled()
            } else {
                enable
            },
    {
        if enable == self.input_enabled {
            return Ok(());
        }
        let switched = if enable {
            self.input_codec.enable()
        } else {
            self.input_codec.disable()
        };
        match switched {
            Ok(()) => {
                self.input_enabled = enable;
                Ok(())
            },
            Err(e) => Err(CodecError::Input(e)),
        }
    }

    /// Enables or closes the speaker codec, unless the codec already
    /// remembers the output in the state asked for. A switch that succeeds
    /// is remembered; one that fails leaves what the codec remembers.
    fn enable_output(&mut self, enable: bool) -> (result: Result<(), CodecError<I2C::Error>>)
        ensures
            final(self).input_on() == old(self).input_on(),
            final(self).output_on() == if result is Ok {
                enable
            } else {
                old(self).output_on()
            },
            final(self).spec_output_volume() == old(self).spec_output_volume(),
            final(self).has_input_reference() == old(self).has_input_reference(),
            final(self).input_log() == old(self).input_log(),
            final(self).input_chip_enabled() == old(self).input_chip_enabled(),
            continues(old(self).output_log(), final(self).output_log()),
            enable == old(self).output_on() ==> result is Ok && final(self).output_log() == old(
                self,
            ).output_log() && final(self).output_chip_open() == old(self).output_chip_open(),
            enable != old(self).output_on() && result is Ok ==> final(self).output_chip_open()
                == enable && if enable {
                enabled_from(old(self).output_log(), final(self).output_log())
            } else {
                extended_by(
                    old(self).output_log(),
                    final(self).output_log(),
                    ES8311_ADDR,
                    close_program(old(self).output_chip_open()),
                )
            },
            result matches Err(e) ==> e is Output,
    {
        if enable == self.output_enabled {
            proof {
                crate::common::i2c::lemma_continues_itself(self.output_log());
            }
            return Ok(());
        }
        let switched = if enable {
            self.output_codec.enable()
        } else {
            self.output_codec.disable()
        };
        match switched {
            Ok(()) => {
                self.output_enabled = enable;
                Ok(())
            },
            Err(e) => Err(CodecError::Output(e)),
        }
    }

    fn input_enabled(&self) -> (enabled: bool)
        ensures
            enabled == self.input_on(),
    {
        self.input_enabled
    }

    fn output_enabled(&self) -> (enabled: bool)
        ensures
            enabled == self.output_on(),
    {
        self.output_enabled
    }

    fn input_reference(&self) -> (reference: bool)
        ensures
            reference == self.has_input_reference(),
    {
        self.input_reference
    }
}

} // verus!
