//! What playback does to a decoded frame before it reaches the speaker:
//! mono frames are doubled into stereo, and the bytes go out in chunks of
//! bounded size.

use vstd::prelude::*;

use crate::common::converter::{bytes_of, i16_slice_to_bytes};

verus! {

/// The largest number of bytes handed to the output in one write.
pub const OUTPUT_CHUNK_SIZE: usize = 4096;

/// The stereo frame for a mono frame: every sample twice, once for the
/// left channel and once for the right.
pub open spec fn stereo_of(mono: Seq<i16>) -> Seq<i16> {
    Seq::new(2 * mono.len(), |i: int| mono[i / 2])
}

/// A mono frame of N samples becomes a stereo frame of 2N samples in which
/// the samples at 2i and 2i+1 both equal sample i of the mono frame.
pub proof fn lemma_upmix_duplicates(mono: Seq<i16>, i: int)
    requires
        0 <= i < mono.len(),
    ensures
        stereo_of(mono).len() == 2 * mono.len(),
        stereo_of(mono)[2 * i] == mono[i],
        stereo_of(mono)[2 * i + 1] == mono[i],
{
}

/// Doubles every sample of the mono frame `mono` into a left and a right
/// sample.
pub fn mono_to_stereo(mono: &[i16]) -> (stereo: Vec<i16>)
    ensures
        stereo@ == stereo_of(mono@),
        stereo@.len() == 2 * mono@.len(),
        forall|i: int|
            0 <= i < mono@.len() ==> stereo@[2 * i] == mono@[i] && stereo@[2 * i + 1] == mono@[i],
{
    let mut stereo: Vec<i16> = Vec::new();
    let mut i: usize = 0;
    while i < mono.len()
        invariant
            i <= mono.len(),
            stereo@ == stereo_of(mono@).take(2 * i as int),
        decreases mono.len() - i,
    {
        let sample = mono[i];
        stereo.push(sample);
        stereo.push(sample);
        assert(stereo@ =~= stereo_of(mono@).take(2 * (i as int + 1)));
        i += 1;
    }
    assert(stereo_of(mono@).take(2 * i as int) =~= stereo_of(mono@));
    stereo
}

/// The samples that go to an output of `output_channels` channels for a
/// decoded frame of `frame_channels` channels: a mono frame is doubled for
/// a stereo output, every other frame goes out as it is.
pub open spec fn output_samples(frame: Seq<i16>, frame_channels: u8, output_channels: u8) -> Seq<
    i16,
> {
    if frame_channels == 1 && output_channels == 2 {
        stereo_of(frame)
    } else {
        frame
    }
}

/// The bytes to write to an output of `output_channels` channels for the
/// decoded frame `frame` of `frame_channels` channels.
pub fn output_bytes(frame: &[i16], frame_channels: u8, output_channels: u8) -> (bytes: Vec<u8>)
    ensures
        bytes@ == bytes_of(output_samples(frame@, frame_channels, output_channels)),
{
    if frame_channels == 1 && output_channels == 2 {
        let stereo = mono_to_stereo(frame);
        i16_slice_to_bytes(stereo.as_slice())
    } else {
        i16_slice_to_bytes(frame)
    }
}

/// How many chunks of at most `chunk_size` bytes it takes to write `len`
/// bytes.
pub open spec fn chunk_count(len: int, chunk_size: int) -> int {
    (len + chunk_size - 1) / chunk_size
}

/// Where chunk `index` starts and ends: chunks follow each other without
/// gap, each as large as allowed, the last one as large as is left.
pub open spec fn chunk_bound(len: int, chunk_size: int, index: int) -> (int, int) {
    (
        index * chunk_size,
        if (index + 1) * chunk_size < len {
            (index + 1) * chunk_size
        } else {
            len
        },
    )
}

/// The ranges in which `len` bytes are written when no write may carry more
/// than `chunk_size` bytes: start (inclusive) and end (exclusive) of each
/// chunk, in order.
pub fn chunk_bounds(len: usize, chunk_size: usize) -> (bounds: Vec<(usize, usize)>)
    requires
        chunk_size > 0,
    ensures
        bounds@.len() == chunk_count(len as int, chunk_size as int),
        forall|i: int|
            0 <= i < bounds@.len() ==> (#[trigger] bounds@[i]).0 as int == chunk_bound(
                len as int,
                chunk_size as int,
                i,
            ).0 && bounds@[i].1 as int == chunk_bound(len as int, chunk_size as int, i).1,
        forall|i: int|
            0 <= i < bounds@.len() ==> (#[trigger] bounds@[i]).0 < bounds@[i].1 <= len
                && bounds@[i].1 - bounds@[i].0 <= chunk_size,
        bounds@.len() > 0 ==> bounds@[0].0 == 0 && bounds@.last().1 == len,
        forall|i: int| 0 < i < bounds@.len() ==> (#[trigger] bounds@[i]).0 == bounds@[i - 1].1,
{
    let mut bounds: Vec<(usize, usize)> = Vec::new();
    let mut start: usize = 0;
    proof {
        let count = chunk_count(len as int, chunk_size as int);
        assert(0 * chunk_size == 0);
        assert(len == 0 ==> count == 0) by (nonlinear_arith)
            requires
                chunk_size > 0,
                count == (len + chunk_size - 1) / (chunk_size as int),
        ;
        assert(len > 0 ==> count > 0) by (nonlinear_arith)
            requires
                chunk_size > 0,
                count == (len + chunk_size - 1) / (chunk_size as int),
        ;
    }
    while start < len
        invariant
            chunk_size > 0,
            start <= len,
            start < len ==> start == bounds@.len() * chunk_size,
            bounds@.len() == 0 ==> start == 0,
            start == len ==> bounds@.len() == chunk_count(len as int, chunk_size as int),
            start < len ==> bounds@.len() < chunk_count(len as int, chunk_size as int),
            forall|i: int|
                0 <= i < bounds@.len() ==> (#[trigger] bounds@[i]).0 as int == chunk_bound(
                    len as int,
                    chunk_size as int,
                    i,
                ).0 && bounds@[i].1 as int == chunk_bound(len as int, chunk_size as int, i).1,
            forall|i: int|
                0 <= i < bounds@.len() ==> (#[trigger] bounds@[i]).0 < bounds@[i].1 <= len
                    && bounds@[i].1 - bounds@[i].0 <= chunk_size,
            bounds@.len() > 0 ==> bounds@[0].0 == 0 && bounds@.last().1 == start,
            forall|i: int| 0 < i < bounds@.len() ==> (#[trigger] bounds@[i]).0 == bounds@[i - 1].1,
        decreases len - start,
    {
        let end: usize = if len - start > chunk_size {
            start + chunk_size
        } else {
            len
        };
        proof {
            lemma_chunk_step(len as int, chunk_size as int, bounds@.len() as int);
        }
        bounds.push((start, end));
        start = end;
    }
    bounds
}

/// The arithmetic of one more chunk: where chunk `index` ends, and how the
/// number of chunks relates to it.
proof fn lemma_chunk_step(len: int, chunk_size: int, index: int)
    requires
        chunk_size > 0,
        index >= 0,
        index * chunk_size < len,
    ensures
        (index + 1) * chunk_size == index * chunk_size + chunk_size,
        index < chunk_count(len, chunk_size),
        (index + 1) * chunk_size >= len ==> index + 1 == chunk_count(len, chunk_size),
        (index + 1) * chunk_size < len ==> index + 1 < chunk_count(len, chunk_size),
{
    assert((index + 1) * chunk_size == index * chunk_size + chunk_size) by (nonlinear_arith);
    let count = chunk_count(len, chunk_size);
    assert(count * chunk_size >= len && (count - 1) * chunk_size < len) by (nonlinear_arith)
        requires
            chunk_size > 0,
            count == (len + chunk_size - 1) / chunk_size,
    ;
    assert(index < count) by (nonlinear_arith)
        requires
            chunk_size > 0,
            index * chunk_size < len,
            count * chunk_size >= len,
    ;
    if (index + 1) * chunk_size >= len {
        assert(index + 1 >= count) by (nonlinear_arith)
            requires
                chunk_size > 0,
                (index + 1) * chunk_size >= len,
                (count - 1) * chunk_size < len,
        ;
    } else {
        assert(index + 1 < count) by (nonlinear_arith)
            requires
                chunk_size > 0,
                (index + 1) * chunk_size < len,
                count * chunk_size >= len,
        ;
    }
}

} // verus!
