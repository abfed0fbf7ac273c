//! The framed container in which sound assets are stored: records follow
//! each other without gap, and each record is two reserved bytes, the
//! length of the payload as two bytes with the high byte first, and the
//! payload, one compressed frame.

use vstd::prelude::*;

use crate::audio::byte_frames;

verus! {

/// The number of bytes in front of a record's payload.
pub const P3_HEADER_LEN: usize = 4;

/// Why a run of bytes is no container.
#[derive(Copy, Clone, Debug, PartialEq, Eq, Structural)]
pub enum P3Error {
    /// The data ends inside a record's header.
    TruncatedHeader,
    /// The data ends inside a record's payload.
    TruncatedPayload,
}

/// The payload length that the header at `offset` announces.
pub open spec fn announced_len(data: Seq<u8>, offset: int) -> int {
    data[offset + 2] as int * 256 + data[offset + 3] as int
}

/// The payloads of the records that start at `offset` and fill the rest of
/// `data`, or the reason why the rest is no run of records.
pub open spec fn records_from(data: Seq<u8>, offset: int) -> Result<Seq<Seq<u8>>, P3Error>
    decreases data.len() - offset,
{
    if offset >= data.len() {
        Ok(Seq::<Seq<u8>>::empty())
    } else if offset + 4 > data.len() {
        Err(P3Error::TruncatedHeader)
    } else {
        let end = offset + 4 + announced_len(data, offset);
        if end > data.len() {
            Err(P3Error::TruncatedPayload)
        } else {
            match records_from(data, end) {
                Ok(rest) => Ok(seq![data.subrange(offset + 4, end)] + rest),
                Err(e) => Err(e),
            }
        }
    }
}

/// The payloads of all records of the container `data`. Data shorter than
/// one header, empty data too, is no container.
pub open spec fn records_of(data: Seq<u8>) -> Result<Seq<Seq<u8>>, P3Error> {
    if data.len() < 4 {
        Err(P3Error::TruncatedHeader)
    } else {
        records_from(data, 0)
    }
}

/// The records found so far, followed by whatever the rest holds.
pub open spec fn found_then(found: Seq<Seq<u8>>, rest: Result<Seq<Seq<u8>>, P3Error>) -> Result<
    Seq<Seq<u8>>,
    P3Error,
> {
    match rest {
        Ok(more) => Ok(found + more),
        Err(e) => Err(e),
    }
}

/// Splits the container `data` into the payloads of its records, in order.
pub fn split_records(data: &[u8]) -> (result: Result<Vec<Vec<u8>>, P3Error>)
    ensures
        match records_of(data@) {
            Ok(records) => result matches Ok(frames) && byte_frames(frames@) == records,
            Err(e) => result == Err::<Vec<Vec<u8>>, P3Error>(e),
        },
{
    if data.len() < P3_HEADER_LEN {
        return Err(P3Error::TruncatedHeader);
    }
    let mut frames: Vec<Vec<u8>> = Vec::new();
    let mut offset: usize = 0;
    assert(byte_frames(frames@) + Seq::<Seq<u8>>::empty() =~= Seq::<Seq<u8>>::empty());
    while offset < data.len()
        invariant
            offset <= data@.len(),
            data@.len() <= usize::MAX,
            records_from(data@, 0) == found_then(
                byte_frames(frames@),
                records_from(data@, offset as int),
            ),
        decreases data@.len() - offset,
    {
        if data.len() - offset < P3_HEADER_LEN {
            return Err(P3Error::TruncatedHeader);
        }
        let len: usize = data[offset + 2] as usize * 256 + data[offset + 3] as usize;
        if data.len() - offset - P3_HEADER_LEN < len {
            return Err(P3Error::TruncatedPayload);
        }
        let end = offset + P3_HEADER_LEN + len;
        let mut frame: Vec<u8> = Vec::new();
        let mut i: usize = offset + P3_HEADER_LEN;
        while i < end
            invariant
                offset + 4 <= i <= end <= data@.len(),
                frame@ == data@.subrange(offset as int + 4, i as int),
            decreases end - i,
        {
            frame.push(data[i]);
            assert(frame@ =~= data@.subrange(offset as int + 4, i as int + 1));
            i += 1;
        }
        proof {
            let found = byte_frames(frames@);
            let rest = records_from(data@, end as int);
            assert(byte_frames(frames@.push(frame)) =~= found.push(frame@));
            if rest is Ok {
                assert(found + (seq![frame@] + rest->Ok_0) =~= found.push(frame@) + rest->Ok_0);
            }
        }
        frames.push(frame);
        offset = end;
    }
    assert(byte_frames(frames@) + Seq::<Seq<u8>>::empty() =~= byte_frames(frames@));
    Ok(frames)
}

} // verus!
