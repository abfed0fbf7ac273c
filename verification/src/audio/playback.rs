//! The playback side of the audio path: what becomes of each packet that
//! was taken out of the incoming queue and handed to the codec.

use vstd::prelude::*;

use crate::audio::opus::decoder::DecodeError;
use crate::audio::pcm::{chunk_bounds, output_bytes, output_samples, OUTPUT_CHUNK_SIZE};
use crate::common::converter::bytes_of;
use crate::common::enums::DeviceState;

verus! {

/// The bytes of one decoded frame, and the ranges in which they are
/// written to the output.
#[derive(Debug)]
pub struct OutputPlan {
    /// The bytes to write.
    pub bytes: Vec<u8>,
    /// Start (inclusive) and end (exclusive) of each write, in order.
    pub chunks: Vec<(usize, usize)>,
}

/// Whether received audio is played in the state `state`.
pub open spec fn plays_in(state: DeviceState) -> bool {
    state == DeviceState::Speaking
}

/// The playback side: how many channels the frames have, and how many the
/// output wants.
#[derive(Copy, Clone, Debug, PartialEq, Eq, Structural)]
pub struct PlaybackDecoder {
    pub frame_channels: u8,
    pub output_channels: u8,
}

impl PlaybackDecoder {
    /// A playback side for frames of `frame_channels` channels and an
    /// output of `output_channels` channels.
    pub fn new(frame_channels: u8, output_channels: u8) -> (playback: Self)
        ensures
            playback == (PlaybackDecoder { frame_channels, output_channels }),
    {
        PlaybackDecoder { frame_channels, output_channels }
    }

    /// Whether received audio is played in the state `state`: only while
    /// the device speaks.
    pub fn plays_in(state: DeviceState) -> (plays: bool)
        ensures
            plays == plays_in(state),
    {
        state == DeviceState::Speaking
    }

    /// What to write for one packet, given what the codec made of it. A
    /// packet that the codec refused is skipped: there is nothing to write.
    /// A decoded frame goes out as bytes, doubled into stereo if it is mono
    /// and the output is stereo, in writes of at most 4096 bytes.
    pub fn on_decoded(&self, decoded: Result<Vec<i16>, DecodeError>) -> (plan: Option<OutputPlan>)
        ensures
            plan is Some == decoded is Ok,
            match (decoded, plan) {
                (Ok(frame), Some(plan)) => {
                    &&& plan.bytes@ == bytes_of(
                        output_samples(frame@, self.frame_channels, self.output_channels),
                    )
                    &&& plan.chunks@.len() == crate::audio::pcm::chunk_count(
                        plan.bytes@.len() as int,
                        OUTPUT_CHUNK_SIZE as int,
                    )
                    &&& forall|i: int|
                        0 <= i < plan.chunks@.len() ==> (#[trigger] plan.chunks@[i]).0 as int
                            == crate::audio::pcm::chunk_bound(
                            plan.bytes@.len() as int,
                            OUTPUT_CHUNK_SIZE as int,
                            i,
                        ).0 && plan.chunks@[i].1 as int == crate::audio::pcm::chunk_bound(
                            plan.bytes@.len() as int,
                            OUTPUT_CHUNK_SIZE as int,
                            i,
                        ).1
                    &&& forall|i: int|
                        0 <= i < plan.chunks@.len() ==> (#[trigger] plan.chunks@[i]).0
                            < plan.chunks@[i].1 <= plan.bytes@.len() && plan.chunks@[i].1
                            - plan.chunks@[i].0 <= OUTPUT_CHUNK_SIZE
                },
                _ => true,
            },
    {
        match decoded {
            Ok(frame) => {
                let bytes = output_bytes(frame.as_slice(), self.frame_channels, self.output_channels);
                let chunks = chunk_bounds(bytes.len(), OUTPUT_CHUNK_SIZE);
                Some(OutputPlan { bytes, chunks })
            },
            Err(_) => None,
        }
    }
}

} // verus!
