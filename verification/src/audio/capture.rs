//! The capture side of the audio path: captured samples are cut into
//! frames, and every frame that the codec has compressed becomes a packet
//! in the outgoing queue.

use vstd::prelude::*;

use crate::audio::opus::encoder::{
    carry_of, frame_size_valid, frame_views, frames_of, spec_frame_size, EncoderError,
    OpusAudioEncoder,
};
use crate::audio::queue::{accepts, after_push, BoundedPacketQueue};
use crate::audio::{AudioStreamPacket, PacketView};
use crate::common::event::{EventView, XzEvent};

verus! {

/// The sample rate of the audio that the device sends.
pub const CAPTURE_SAMPLE_RATE: i32 = 16000;

/// The number of channels that the device captures.
pub const CAPTURE_CHANNELS: i32 = 2;

/// The number of bytes in one sample.
pub const BYTES_PER_SAMPLE: usize = 2;

/// The packet that carries the compressed frame `payload` to the service.
pub open spec fn outgoing_packet(sample_rate: int, frame_duration: int, payload: Seq<u8>) -> PacketView {
    PacketView { sample_rate, frame_duration, timestamp: 0, payload }
}

/// The number of bytes to read from the codec for a front end that wants
/// `feed_size` samples: two for each sample, and none at all if it wants no
/// samples or more than fit.
pub open spec fn spec_capture_bytes(feed_size: usize) -> Option<usize> {
    if feed_size == 0 || feed_size * 2 > usize::MAX {
        None
    } else {
        Some((feed_size * 2) as usize)
    }
}

/// The number of bytes to read from the codec before the next feed; see
/// `spec_capture_bytes`.
pub fn capture_bytes(feed_size: usize) -> (bytes: Option<usize>)
    ensures
        bytes == spec_capture_bytes(feed_size),
{
    if feed_size == 0 {
        None
    } else {
        feed_size.checked_mul(BYTES_PER_SAMPLE)
    }
}

/// What became of one frame that was handed to the codec.
#[derive(Copy, Clone, Debug, PartialEq, Eq, Structural)]
pub enum FrameOutcome {
    /// The compressed frame is in the outgoing queue; the signal that audio
    /// is ready to send goes on the internal channel.
    Queued,
    /// The outgoing queue was full: the compressed frame was dropped.
    DroppedQueueFull,
    /// The codec refused the frame: it was dropped.
    DroppedByCodec,
}

/// The capture side: the encoder's carry buffer and the parameters that
/// every outgoing packet carries.
pub struct CaptureEncoder {
    encoder: OpusAudioEncoder,
    sample_rate: i32,
    frame_duration: i32,
}

impl CaptureEncoder {
    /// The number of samples in one frame.
    pub closed spec fn frame_len(&self) -> nat {
        self.encoder.spec_frame_len()
    }

    /// The samples that wait for the next frame to fill up.
    pub closed spec fn carry(&self) -> Seq<i16> {
        self.encoder.carry()
    }

    /// The sample rate that every outgoing packet carries.
    pub closed spec fn spec_sample_rate(&self) -> int {
        self.sample_rate as int
    }

    /// The frame duration that every outgoing packet carries, in milliseconds.
    pub closed spec fn spec_frame_duration(&self) -> int {
        self.frame_duration as int
    }

    /// A capture side for frames of `duration_ms` milliseconds at
    /// `sample_rate` samples per second on `channels` channels.
    pub fn new(sample_rate: i32, channels: i32, duration_ms: i32) -> (result: Result<
        Self,
        EncoderError,
    >)
        ensures
            result is Ok <==> frame_size_valid(
                sample_rate as int,
                channels as int,
                duration_ms as int,
            ),
            result matches Ok(capture) ==> {
                &&& capture.frame_len() == spec_frame_size(
                    sample_rate as int,
                    channels as int,
                    duration_ms as int,
                )
                &&& capture.carry() == Seq::<i16>::empty()
                &&& capture.spec_sample_rate() == sample_rate
                &&& capture.spec_frame_duration() == duration_ms
            },
            result matches Err(e) ==> e == EncoderError::InvalidFrameSize,
    {
        match OpusAudioEncoder::new(sample_rate, channels, duration_ms) {
            Ok(encoder) => Ok(CaptureEncoder { encoder, sample_rate, frame_duration: duration_ms }),
            Err(e) => Err(e),
        }
    }

    /// The number of samples in one frame.
    pub fn frame_size(&self) -> (frame_size: usize)
        ensures
            frame_size == self.frame_len(),
            frame_size > 0,
    {
        self.encoder.frame_size()
    }

    /// Takes in a frame that the front end put out, and hands out every
    /// whole frame that is ready for the codec, oldest first.
    pub fn on_output(&mut self, pcm: Vec<i16>) -> (frames: Vec<Vec<i16>>)
        ensures
            final(self).frame_len() == old(self).frame_len(),
            final(self).spec_sample_rate() == old(self).spec_sample_rate(),
            final(self).spec_frame_duration() == old(self).spec_frame_duration(),
            frame_views(frames@) == frames_of(old(self).carry() + pcm@, old(self).frame_len() as int),
            final(self).carry() == carry_of(old(self).carry() + pcm@, old(self).frame_len() as int),
            forall|k: int|
                0 <= k < frames@.len() ==> (#[trigger] frames@[k])@.len() == old(self).frame_len(),
    {
        self.encoder.encode(pcm)
    }

    /// Puts the compressed frame `payload` into the outgoing queue as a
    /// packet. If the queue takes it, the signal that audio is ready to
    /// send is returned for the internal channel; if the queue is full,
    /// the packet is dropped and there is no signal.
    pub fn on_encoded(&self, payload: Vec<u8>, outgoing: &mut BoundedPacketQueue) -> (signal: Option<
        XzEvent,
    >)
        ensures
            final(outgoing).spec_capacity() == old(outgoing).spec_capacity(),
            final(outgoing)@ == after_push(
                old(outgoing)@,
                old(outgoing).spec_capacity(),
                outgoing_packet(self.spec_sample_rate(), self.spec_frame_duration(), payload@),
            ),
            signal is Some == accepts(old(outgoing)@, old(outgoing).spec_capacity()),
            signal matches Some(event) ==> event@ == EventView::SendAudioEvent,
    {
        let packet = AudioStreamPacket {
            sample_rate: self.sample_rate,
            frame_duration: self.frame_duration,
            timestamp: 0,
            payload,
        };
        if outgoing.push(packet) {
            Some(XzEvent::SendAudioEvent)
        } else {
            None
        }
    }

    /// Takes what the codec made of one frame. A frame that the codec
    /// refused is dropped and nothing else changes: the next frame is
    /// handled as if nothing had happened. A compressed frame goes into the
    /// outgoing queue as a packet, or is dropped if the queue is full.
    pub fn on_encode_result<E>(
        &self,
        encoded: Result<Vec<u8>, E>,
        outgoing: &mut BoundedPacketQueue,
    ) -> (outcome: FrameOutcome)
        ensures
            final(outgoing).spec_capacity() == old(outgoing).spec_capacity(),
            match encoded {
                Ok(payload) => {
                    &&& final(outgoing)@ == after_push(
                        old(outgoing)@,
                        old(outgoing).spec_capacity(),
                        outgoing_packet(
                            self.spec_sample_rate(),
                            self.spec_frame_duration(),
                            payload@,
                        ),
                    )
                    &&& outcome == if accepts(old(outgoing)@, old(outgoing).spec_capacity()) {
                        FrameOutcome::Queued
                    } else {
                        FrameOutcome::DroppedQueueFull
                    }
                },
                Err(_) => {
                    &&& final(outgoing)@ == old(outgoing)@
                    &&& outcome == FrameOutcome::DroppedByCodec
                },
            },
    {
        match encoded {
            Ok(payload) => {
                match self.on_encoded(payload, outgoing) {
                    Some(_) => FrameOutcome::Queued,
                    None => FrameOutcome::DroppedQueueFull,
                }
            },
            Err(_) => FrameOutcome::DroppedByCodec,
        }
    }
}

} // verus!