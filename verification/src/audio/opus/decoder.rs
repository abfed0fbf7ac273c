//! The decoder's bookkeeping: how large the buffer for one decoded frame
//! is, and what a call of the codec that reports a count of samples, or an
//! error code, amounts to.

use vstd::prelude::*;

verus! {

/// The longest frame that is decoded in one call, in milliseconds.
pub const MAX_FRAME_DURATION_MS: i32 = 60;

/// Why a decoder cannot be set up.
#[derive(Copy, Clone, Debug, PartialEq, Eq, Structural)]
pub enum DecoderError {
    /// The sample rate or the channel count is not positive, or together
    /// they give a frame whose samples a 32-bit count cannot hold.
    InvalidParameters,
}

/// Why a frame could not be decoded.
#[derive(Copy, Clone, Debug, PartialEq, Eq, Structural)]
pub enum DecodeError {
    /// The codec refused the frame, with this (negative) error code.
    Codec(i32),
}

/// The number of samples per channel in the longest frame at `sample_rate`
/// samples per second.
pub open spec fn spec_max_frame_size(sample_rate: int) -> int {
    60 * sample_rate / 1000
}

/// The number of samples, of all channels together, in the longest frame at
/// `sample_rate` samples per second on `channels` channels.
pub open spec fn spec_buffer_len(sample_rate: int, channels: int) -> int {
    spec_max_frame_size(sample_rate) * channels
}

/// Whether a decoder can be set up with these parameters.
pub open spec fn decoder_valid(sample_rate: int, channels: int) -> bool {
    &&& sample_rate > 0
    &&& channels > 0
    &&& 60 * sample_rate <= i32::MAX
    &&& spec_buffer_len(sample_rate, channels) <= i32::MAX
}

/// The number of samples that a frame holds of which the codec reported
/// `decoded_samples` samples per channel on `channels` channels, in a buffer
/// of `buffer_len` samples: the samples of all channels, and never more
/// than the buffer has.
pub open spec fn decoded_len(decoded_samples: int, channels: int, buffer_len: int) -> int {
    if decoded_samples * channels < buffer_len {
        decoded_samples * channels
    } else {
        buffer_len
    }
}

/// At a whole number of samples per millisecond, the encoder's frame of
/// 60 ms and the decoder's buffer hold the same number of samples, whatever
/// the number of channels: what goes in as one frame comes out as one frame
/// of the same length.
pub proof fn lemma_frame_sample_count_preserved(sample_rate: int, channels: int)
    requires
        sample_rate > 0,
        sample_rate % 1000 == 0,
        channels > 0,
    ensures
        crate::audio::opus::encoder::spec_frame_size(sample_rate, channels, 60) == spec_buffer_len(
            sample_rate,
            channels,
        ),
        decoded_len(
            spec_max_frame_size(sample_rate),
            channels,
            spec_buffer_len(sample_rate, channels),
        ) == crate::audio::opus::encoder::spec_frame_size(sample_rate, channels, 60),
{
    let per_ms = sample_rate / 1000;
    assert(sample_rate == per_ms * 1000);
    assert(60 * sample_rate / 1000 == 60 * per_ms) by (nonlinear_arith)
        requires
            sample_rate == per_ms * 1000,
    ;
    assert(per_ms * channels * 60 == 60 * per_ms * channels) by (nonlinear_arith);
}

/// Sizes the output of the codec for one stream.
pub struct OpusAudioDecoder {
    sample_rate: i32,
    channels: i32,
}

impl OpusAudioDecoder {
    #[verifier::type_invariant]
    spec fn well_formed(self) -> bool {
        decoder_valid(self.sample_rate as int, self.channels as int)
    }

    /// The sample rate of the stream, in samples per second.
    pub closed spec fn spec_sample_rate(&self) -> int {
        self.sample_rate as int
    }

    /// The number of channels of the stream.
    pub closed spec fn spec_channels(&self) -> int {
        self.channels as int
    }

    /// A decoder for a stream of `sample_rate` samples per second on
    /// `channels` channels.
    pub fn new(sample_rate: i32, channels: i32) -> (result: Result<Self, DecoderError>)
        ensures
            result is Ok <==> decoder_valid(sample_rate as int, channels as int),
            result matches Ok(decoder) ==> decoder.spec_sample_rate() == sample_rate
                && decoder.spec_channels() == channels,
            result matches Err(e) ==> e == DecoderError::InvalidParameters,
    {
        if sample_rate <= 0 || channels <= 0 || sample_rate > i32::MAX / 60 {
            return Err(DecoderError::InvalidParameters);
        }
        let per_channel: i64 = (60 * sample_rate / 1000) as i64;
        let limit: i64 = i32::MAX as i64;
        proof {
            assert(0 <= per_channel * channels <= limit * limit) by (nonlinear_arith)
                requires
                    0 <= per_channel <= limit,
                    0 < channels <= limit,
            ;
        }
        if per_channel * (channels as i64) > limit {
            return Err(DecoderError::InvalidParameters);
        }
        Ok(OpusAudioDecoder { sample_rate, channels })
    }

    /// The sample rate of the stream, in samples per second.
    pub fn sample_rate(&self) -> (sample_rate: i32)
        ensures
            sample_rate == self.spec_sample_rate(),
    {
        self.sample_rate
    }

    /// The number of channels of the stream.
    pub fn channels(&self) -> (channels: i32)
        ensures
            channels == self.spec_channels(),
            channels > 0,
    {
        proof {
            use_type_invariant(self);
        }
        self.channels
    }

    /// The number of samples per channel that one call of the codec may
    /// produce.
    pub fn max_frame_size(&self) -> (size: usize)
        ensures
            size == spec_max_frame_size(self.spec_sample_rate()),
            size <= i32::MAX,
    {
        proof {
            use_type_invariant(self);
        }
        (60 * self.sample_rate / 1000) as usize
    }

    /// The number of samples, of all channels together, that one call of
    /// the codec may produce: the length of the buffer to decode into.
    pub fn buffer_len(&self) -> (len: usize)
        ensures
            len == spec_buffer_len(self.spec_sample_rate(), self.spec_channels()),
            len <= i32::MAX,
    {
        proof {
            use_type_invariant(self);
        }
        let per_channel: i64 = (60 * self.sample_rate / 1000) as i64;
        (per_channel * (self.channels as i64)) as usize
    }

    /// A buffer of zeros for the codec to decode one frame into: room for
    /// the longest frame on every channel.
    pub fn frame_buffer(&self) -> (buffer: Vec<i16>)
        ensures
            buffer@ == Seq::new(
                spec_buffer_len(self.spec_sample_rate(), self.spec_channels()) as nat,
                |i: int| 0i16,
            ),
    {
        let size = self.buffer_len();
        let mut buffer: Vec<i16> = Vec::new();
        let mut i: usize = 0;
        while i < size
            invariant
                i <= size,
                buffer@ == Seq::new(i as nat, |k: int| 0i16),
            decreases size - i,
        {
            buffer.push(0i16);
            assert(buffer@ =~= Seq::new((i + 1) as nat, |k: int| 0i16));
            i += 1;
        }
        buffer
    }

    /// What a call of the codec amounts to that reported `decoded_samples`
    /// and left its output in `pcm_buffer`: a negative report is the
    /// codec's error code; otherwise the frame is the samples that were
    /// decoded, those of every channel, from the front of the buffer.
    pub fn decode(&self, decoded_samples: i32, pcm_buffer: Vec<i16>) -> (result: Result<
        Vec<i16>,
        DecodeError,
    >)
        ensures
            decoded_samples < 0 ==> result == Err::<Vec<i16>, DecodeError>(
                DecodeError::Codec(decoded_samples),
            ),
            decoded_samples >= 0 ==> (result matches Ok(frame) && frame@ == pcm_buffer@.take(
                decoded_len(
                    decoded_samples as int,
                    self.spec_channels(),
                    pcm_buffer@.len() as int,
                ),
            )),
    {
        if decoded_samples < 0 {
            return Err(DecodeError::Codec(decoded_samples));
        }
        proof {
            use_type_invariant(self);
        }
        let limit: i64 = i32::MAX as i64;
        proof {
            assert(0 <= decoded_samples * self.channels <= limit * limit) by (nonlinear_arith)
                requires
                    0 <= decoded_samples <= limit,
                    0 < self.channels <= limit,
            ;
        }
        let decoded: i64 = (decoded_samples as i64) * (self.channels as i64);
        let mut frame = pcm_buffer;
        if (decoded as u64) < frame.len() as u64 {
            frame.truncate(decoded as usize);
        }
        assert(frame@ =~= pcm_buffer@.take(
            decoded_len(decoded_samples as int, self.spec_channels(), pcm_buffer@.len() as int),
        ));
        Ok(frame)
    }
}

} // verus!
