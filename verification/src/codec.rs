//! Wire header codec: the fixed five-byte, big-endian frame header
//! `[type: u8][id: u16][value: u16]`. Pure bit layout; no knowledge of
//! message semantics.

use vstd::prelude::*;

use crate::BlynkError;

verus! {

/// Number of bytes in a wire header.
pub const HEADER_SIZE: usize = 5;

/// The five header bytes for the given fields, big-endian.
pub open spec fn spec_header(mtype: u8, id: u16, value: u16) -> Seq<u8> {
    seq![
        mtype,
        (id / 256) as u8,
        (id % 256) as u8,
        (value / 256) as u8,
        (value % 256) as u8,
    ]
}

/// Marker type for the five-byte wire header layout; `encode` and `decode`
/// are the codec.
pub struct ProtocolHeader;

impl ProtocolHeader {
    /// Packs the header fields into exactly five big-endian bytes.
    pub fn encode(mtype: u8, id: u16, value: u16) -> (r: Vec<u8>)
        ensures
            r@ == spec_header(mtype, id, value),
    {
        let mut buf: Vec<u8> = Vec::new();
        buf.push(mtype);
        buf.push((id / 256) as u8);
        buf.push((id % 256) as u8);
        buf.push((value / 256) as u8);
        buf.push((value % 256) as u8);
        proof {
            assert(buf@ =~= spec_header(mtype, id, value));
        }
        buf
    }

    /// Unpacks the first five bytes of `data` into the header fields; fails
    /// when fewer than five bytes are available.
    pub fn decode(data: &[u8]) -> (r: Result<(u8, u16, u16), BlynkError>)
        ensures
            data@.len() < 5 <==> r is Err,
            r is Err ==> r == Err::<(u8, u16, u16), BlynkError>(BlynkError::InvalidMessageHeader),
            r matches Ok((mtype, id, value)) ==> data@.subrange(0, 5) == spec_header(
                mtype,
                id,
                value,
            ),
    {
        if data.len() < 5 {
            return Err(BlynkError::InvalidMessageHeader);
        }
        let mtype = data[0];
        let id: u16 = (data[1] as u16) * 256 + (data[2] as u16);
        let value: u16 = (data[3] as u16) * 256 + (data[4] as u16);
        proof {
            assert(data@.subrange(0, 5) =~= spec_header(mtype, id, value));
        }
        Ok((mtype, id, value))
    }
}

/// Decoding inverts encoding: the five bytes produced for given fields
/// unpack to exactly those fields.
pub proof fn lemma_header_round_trip(mtype: u8, id: u16, value: u16)
    ensures
        spec_header(mtype, id, value).len() == 5,
        spec_header(mtype, id, value)[0] == mtype,
        (spec_header(mtype, id, value)[1] as u16) * 256 + (spec_header(mtype, id, value)[2] as u16)
            == id,
        (spec_header(mtype, id, value)[3] as u16) * 256 + (spec_header(mtype, id, value)[4] as u16)
            == value,
{
}

} // verus!
