//! The encoder's carry buffer. The codec only takes whole frames; samples
//! that do not fill a frame wait for the next call.

use vstd::prelude::*;

verus! {

/// The largest compressed frame that the codec produces, in bytes.
pub const MAX_OPUS_PACKET_SIZE: usize = 3000;

/// Why an encoder cannot be set up.
#[derive(Copy, Clone, Debug, PartialEq, Eq, Structural)]
pub enum EncoderError {
    /// The sample rate, the channel count or the frame duration is not
    /// positive, or together they give no frame of at least one sample that
    /// a 32-bit count can hold.
    InvalidFrameSize,
}

/// The number of samples in one frame: the samples per millisecond, whole,
/// times the channels, times the milliseconds.
pub open spec fn spec_frame_size(sample_rate: int, channels: int, duration_ms: int) -> int {
    sample_rate / 1000 * channels * duration_ms
}

/// Whether the three parameters give a usable frame size.
pub open spec fn frame_size_valid(sample_rate: int, channels: int, duration_ms: int) -> bool {
    &&& sample_rate > 0
    &&& channels > 0
    &&& duration_ms > 0
    &&& 0 < spec_frame_size(sample_rate, channels, duration_ms) <= i32::MAX
}

/// The whole frames of `frame_size` samples that `samples` hold, in order.
pub open spec fn frames_of(samples: Seq<i16>, frame_size: int) -> Seq<Seq<i16>> {
    Seq::new(
        (samples.len() as int / frame_size) as nat,
        |k: int| samples.subrange(k * frame_size, (k + 1) * frame_size),
    )
}

/// The samples of `samples` that are left over when the whole frames of
/// `frame_size` samples are taken away.
pub open spec fn carry_of(samples: Seq<i16>, frame_size: int) -> Seq<i16> {
    samples.skip((samples.len() as int / frame_size) * frame_size)
}

/// The sample sequences that `frames` hold.
pub open spec fn frame_views(frames: Seq<Vec<i16>>) -> Seq<Seq<i16>> {
    frames.map_values(|f: Vec<i16>| f@)
}

/// Cuts the stream of captured samples into frames for the codec.
pub struct OpusAudioEncoder {
    frame_size: usize,
    in_buffer: Vec<i16>,
}

impl OpusAudioEncoder {
    #[verifier::type_invariant]
    spec fn well_formed(self) -> bool {
        self.frame_size > 0 && self.in_buffer@.len() < self.frame_size
    }

    /// The number of samples in one frame.
    pub closed spec fn spec_frame_len(&self) -> nat {
        self.frame_size as nat
    }

    /// The samples that wait for the next frame to fill up.
    pub closed spec fn carry(&self) -> Seq<i16> {
        self.in_buffer@
    }

    /// An encoder with an empty carry buffer for frames of `duration_ms`
    /// milliseconds at `sample_rate` samples per second on `channels`
    /// channels.
    pub fn new(sample_rate: i32, channels: i32, duration_ms: i32) -> (result: Result<
        Self,
        EncoderError,
    >)
        ensures
            result is Ok <==> frame_size_valid(
                sample_rate as int,
                channels as int,
                duration_ms as int,
            ),
            result matches Ok(encoder) ==> encoder.spec_frame_len() == spec_frame_size(
                sample_rate as int,
                channels as int,
                duration_ms as int,
            ) && encoder.carry() == Seq::<i16>::empty(),
            result matches Err(e) ==> e == EncoderError::InvalidFrameSize,
    {
        if sample_rate <= 0 || channels <= 0 || duration_ms <= 0 {
            return Err(EncoderError::InvalidFrameSize);
        }
        let per_ms: i64 = (sample_rate / 1000) as i64;
        let limit: i64 = i32::MAX as i64;
        proof {
            assert(0 <= per_ms * channels <= limit * limit) by (nonlinear_arith)
                requires
                    0 <= per_ms <= limit,
                    0 < channels <= limit,
            ;
        }
        let per_frame: i64 = per_ms * (channels as i64);
        if per_frame == 0 || per_frame > limit {
            proof {
                let d = duration_ms as int;
                let f = per_frame as int;
                assert(f > limit ==> f * d > limit) by (nonlinear_arith)
                    requires
                        d >= 1,
                        limit >= 0,
                ;
                assert(f == 0 ==> f * d == 0) by (nonlinear_arith);
            }
            return Err(EncoderError::InvalidFrameSize);
        }
        proof {
            assert(0 < per_frame * duration_ms <= limit * limit) by (nonlinear_arith)
                requires
                    0 < per_frame <= limit,
                    0 < duration_ms <= limit,
            ;
        }
        let total: i64 = per_frame * (duration_ms as i64);
        if total > limit {
            return Err(EncoderError::InvalidFrameSize);
        }
        let encoder = OpusAudioEncoder { frame_size: total as usize, in_buffer: Vec::new() };
        Ok(encoder)
    }

    /// The number of samples in one frame.
    pub fn frame_size(&self) -> (frame_size: usize)
        ensures
            frame_size == self.spec_frame_len(),
            frame_size > 0,
    {
        proof {
            use_type_invariant(self);
        }
        self.frame_size
    }

    /// The number of samples that wait for the next frame to fill up.
    pub fn buffered(&self) -> (len: usize)
        ensures
            len == self.carry().len(),
            len < self.spec_frame_len(),
    {
        proof {
            use_type_invariant(self);
        }
        self.in_buffer.len()
    }

    /// Takes `pcm` in behind the samples carried over, and hands out every
    /// whole frame that the two together hold, oldest first. What does not
    /// fill a frame is carried over to the next call. Each frame handed out
    /// is to be compressed on its own.
    pub fn encode(&mut self, pcm: Vec<i16>) -> (frames: Vec<Vec<i16>>)
        ensures
            final(self).spec_frame_len() == old(self).spec_frame_len(),
            frame_views(frames@) == frames_of(
                old(self).carry() + pcm@,
                old(self).spec_frame_len() as int,
            ),
            final(self).carry() == carry_of(
                old(self).carry() + pcm@,
                old(self).spec_frame_len() as int,
            ),
            final(self).carry().len() < final(self).spec_frame_len(),
            frames@.len() == (old(self).carry().len() + pcm@.len()) / old(
                self,
            ).spec_frame_len(),
            forall|k: int|
                0 <= k < frames@.len() ==> (#[trigger] frames@[k])@.len() == old(
                    self,
                ).spec_frame_len(),
    {
        proof {
            use_type_invariant(&*self);
        }
        let frame_size = self.frame_size;
        let mut carried: Vec<i16> = Vec::new();
        std::mem::swap(&mut self.in_buffer, &mut carried);
        let ghost all = carried@ + pcm@;
        let ghost n = frame_size as int;
        let mut frames: Vec<Vec<i16>> = Vec::new();
        let mut current: Vec<i16> = carried;
        let mut i: usize = 0;
        assert(frame_views(frames@) =~= Seq::<Seq<i16>>::empty());
        while i < pcm.len()
            invariant
                i <= pcm@.len(),
                n == frame_size,
                n > 0,
                all == old(self).carry() + pcm@,
                self.frame_size == frame_size,
                self.in_buffer@.len() == 0,
                current@.len() < n,
                frames@.len() * n + current@.len() == old(self).carry().len() + i,
                current@ == all.subrange(frames@.len() * n, old(self).carry().len() + i),
                forall|k: int|
                    0 <= k < frames@.len() ==> (#[trigger] frames@[k])@ == all.subrange(
                        k * n,
                        (k + 1) * n,
                    ),
            decreases pcm@.len() - i,
        {
            let ghost count = frames@.len() as int;
            current.push(pcm[i]);
            assert(current@ =~= all.subrange(count * n, old(self).carry().len() + i + 1));
            if current.len() == frame_size {
                let mut full: Vec<i16> = Vec::new();
                std::mem::swap(&mut current, &mut full);
                proof {
                    assert((count + 1) * n == count * n + n) by (nonlinear_arith);
                    assert(all.subrange((count + 1) * n, (count + 1) * n) =~= Seq::<i16>::empty());
                }
                frames.push(full);
            }
            i += 1;
        }
        proof {
            let total = all.len() as int;
            let count = frames@.len() as int;
            assert(count * n + current@.len() == total);
            assert(total / n == count && total % n == current@.len()) by (nonlinear_arith)
                requires
                    n > 0,
                    count >= 0,
                    0 <= current@.len() < n,
                    count * n + current@.len() == total,
            ;
            assert(frame_views(frames@) =~= frames_of(all, n));
            assert(current@ =~= carry_of(all, n));
            assert forall|k: int| 0 <= k < count implies (#[trigger] frames@[k])@.len() == n by {
                assert(0 <= k * n && (k + 1) * n == k * n + n && (k + 1) * n <= total)
                    by (nonlinear_arith)
                    requires
                        0 <= k < count,
                        n > 0,
                        count * n <= total,
                ;
            }
        }
        std::mem::swap(&mut self.in_buffer, &mut current);
        frames
    }
}

} // verus!
