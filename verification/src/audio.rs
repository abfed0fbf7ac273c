//! Audio packets, the bounded queues that carry them, and the chip drivers.

use vstd::prelude::*;

pub mod audio_codec;
pub mod capture;
pub mod es7210;
pub mod es8311;
pub mod opus;
pub mod p3;
pub mod pcm;
pub mod playback;
pub mod processor;
pub mod queue;
pub mod xiaozhi_audio_codec;

verus! {

/// The sample rate of the microphone converter, in samples per second.
pub const AUDIO_INPUT_SAMPLE_RATE: u32 = 24000;

/// The sample rate of the speaker codec, in samples per second.
pub const AUDIO_OUTPUT_SAMPLE_RATE: u32 = 24000;

/// The ratio of the master clock to the sample rate.
pub const I2S_MCLK_MULTIPLE_256: i32 = 256;

/// Duration of one compressed audio frame, in milliseconds.
pub const OPUS_FRAME_DURATION_MS: usize = 60;

/// Length of the audio window that a queue may hold, in milliseconds.
pub const AUDIO_QUEUE_WINDOW_MS: usize = 2400;

/// Number of packets that fit in the audio window.
pub const MAX_AUDIO_PACKETS_IN_QUEUE: usize = AUDIO_QUEUE_WINDOW_MS / OPUS_FRAME_DURATION_MS;

/// One frame of compressed audio on its way to or from the service.
#[derive(Debug)]
pub struct AudioStreamPacket {
    pub sample_rate: i32,
    pub frame_duration: i32,
    pub timestamp: u32,
    pub payload: Vec<u8>,
}

/// What a packet is, as mathematics: its three numbers and its payload bytes.
pub struct PacketView {
    pub sample_rate: int,
    pub frame_duration: int,
    pub timestamp: int,
    pub payload: Seq<u8>,
}

impl View for AudioStreamPacket {
    type V = PacketView;

    open spec fn view(&self) -> PacketView {
        PacketView {
            sample_rate: self.sample_rate as int,
            frame_duration: self.frame_duration as int,
            timestamp: self.timestamp as int,
            payload: self.payload@,
        }
    }
}

impl Clone for AudioStreamPacket {
    fn clone(&self) -> (copy: Self)
        ensures
            copy@ == self@,
    {
        AudioStreamPacket {
            sample_rate: self.sample_rate,
            frame_duration: self.frame_duration,
            timestamp: self.timestamp,
            payload: self.payload.clone(),
        }
    }
}

/// The byte sequences that `frames` hold, in the same order.
pub open spec fn byte_frames(frames: Seq<Vec<u8>>) -> Seq<Seq<u8>> {
    frames.map_values(|f: Vec<u8>| f@)
}

/// The views of a sequence of packets, in the same order.
pub open spec fn packet_views(packets: Seq<AudioStreamPacket>) -> Seq<PacketView> {
    packets.map_values(|p: AudioStreamPacket| p@)
}

} // verus!
