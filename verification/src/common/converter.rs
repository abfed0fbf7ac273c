//! Conversion between raw audio bytes and 16-bit samples. A sample is two
//! bytes, low byte first, in two's complement.

use vstd::prelude::*;

verus! {

/// Why a run of bytes is no run of samples.
#[derive(Copy, Clone, Debug, PartialEq, Eq, Structural)]
pub enum ConvertError {
    /// The number of bytes is odd, so the last sample is incomplete.
    OddLength,
}

/// The sample that the two bytes `low` and `high` stand for.
pub open spec fn sample_of(low: u8, high: u8) -> i16 {
    let unsigned = low as int + 256 * (high as int);
    if unsigned >= 32768 {
        (unsigned - 65536) as i16
    } else {
        unsigned as i16
    }
}

/// The low byte of `sample`.
pub open spec fn low_byte(sample: i16) -> u8 {
    let unsigned = if sample < 0 {
        sample as int + 65536
    } else {
        sample as int
    };
    (unsigned % 256) as u8
}

/// The high byte of `sample`.
pub open spec fn high_byte(sample: i16) -> u8 {
    let unsigned = if sample < 0 {
        sample as int + 65536
    } else {
        sample as int
    };
    (unsigned / 256) as u8
}

/// The samples that an even number of bytes stand for.
pub open spec fn samples_of(bytes: Seq<u8>) -> Seq<i16> {
    Seq::new(bytes.len() / 2, |i: int| sample_of(bytes[2 * i], bytes[2 * i + 1]))
}

/// The bytes that stand for `samples`.
pub open spec fn bytes_of(samples: Seq<i16>) -> Seq<u8> {
    Seq::new(
        2 * samples.len(),
        |i: int|
            if i % 2 == 0 {
                low_byte(samples[i / 2])
            } else {
                high_byte(samples[i / 2])
            },
    )
}

/// Splitting a sample into its bytes and putting them together again gives
/// the sample back, and the other way round.
pub proof fn lemma_sample_bytes_round_trip(sample: i16, low: u8, high: u8)
    ensures
        sample_of(low_byte(sample), high_byte(sample)) == sample,
        low_byte(sample_of(low, high)) == low,
        high_byte(sample_of(low, high)) == high,
{
}

/// Turning samples into bytes and back gives the samples back.
pub proof fn lemma_samples_round_trip(samples: Seq<i16>)
    ensures
        samples_of(bytes_of(samples)) == samples,
{
    let bytes = bytes_of(samples);
    assert forall|i: int| 0 <= i < samples.len() implies samples_of(bytes)[i] == samples[i] by {
        lemma_sample_bytes_round_trip(samples[i], 0, 0);
        assert(bytes[2 * i] == low_byte(samples[i]));
        assert(bytes[2 * i + 1] == high_byte(samples[i]));
    }
    assert(samples_of(bytes) =~= samples);
}

/// Turning an even number of bytes into samples and back gives the bytes
/// back.
pub proof fn lemma_bytes_round_trip(bytes: Seq<u8>)
    requires
        bytes.len() % 2 == 0,
    ensures
        bytes_of(samples_of(bytes)) == bytes,
{
    let samples = samples_of(bytes);
    assert forall|i: int| 0 <= i < bytes.len() implies bytes_of(samples)[i] == bytes[i] by {
        let k = i / 2;
        lemma_sample_bytes_round_trip(0, bytes[2 * k], bytes[2 * k + 1]);
    }
    assert(bytes_of(samples) =~= bytes);
}

fn sample_from(low: u8, high: u8) -> (sample: i16)
    ensures
        sample == sample_of(low, high),
{
    let unsigned: i32 = low as i32 + 256 * (high as i32);
    if unsigned >= 32768 {
        (unsigned - 65536) as i16
    } else {
        unsigned as i16
    }
}

/// Reads `bytes` as 16-bit samples, low byte first. An odd number of bytes
/// is refused.
pub fn bytes_to_i16_slice(bytes: &[u8]) -> (result: Result<Vec<i16>, ConvertError>)
    ensures
        result is Ok <==> bytes@.len() % 2 == 0,
        result matches Ok(samples) ==> samples@ == samples_of(bytes@),
        result matches Err(e) ==> e == ConvertError::OddLength,
{
    if bytes.len() % 2 != 0 {
        return Err(ConvertError::OddLength);
    }
    let count = bytes.len() / 2;
    let mut samples: Vec<i16> = Vec::new();
    let mut i: usize = 0;
    while i < count
        invariant
            i <= count,
            2 * count == bytes@.len(),
            bytes@.len() <= usize::MAX,
            samples@ == samples_of(bytes@).take(i as int),
        decreases count - i,
    {
        let sample = sample_from(bytes[2 * i], bytes[2 * i + 1]);
        samples.push(sample);
        assert(samples@ =~= samples_of(bytes@).take(i as int + 1));
        i += 1;
    }
    assert(samples_of(bytes@).take(count as int) =~= samples_of(bytes@));
    Ok(samples)
}

/// Writes `samples` out as bytes, low byte first.
pub fn i16_slice_to_bytes(samples: &[i16]) -> (bytes: Vec<u8>)
    ensures
        bytes@ == bytes_of(samples@),
        bytes@.len() == 2 * samples@.len(),
{
    let mut bytes: Vec<u8> = Vec::new();
    let mut i: usize = 0;
    while i < samples.len()
        invariant
            i <= samples.len(),
            bytes@ == bytes_of(samples@).take(2 * i as int),
        decreases samples.len() - i,
    {
        let sample = samples[i];
        let unsigned: i32 = if sample < 0 {
            sample as i32 + 65536
        } else {
            sample as i32
        };
        let low = (unsigned % 256) as u8;
        let high = (unsigned / 256) as u8;
        bytes.push(low);
        bytes.push(high);
        assert(bytes@ =~= bytes_of(samples@).take(2 * (i as int + 1)));
        i += 1;
    }
    assert(bytes_of(samples@).take(2 * i as int) =~= bytes_of(samples@));
    bytes
}

} // verus!
