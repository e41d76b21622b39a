use crate::buffer::{buf_put_u16, buf_view, bytes_at, bytes_len, bytes_view};
use crate::error::Error;
use crate::param_type::ParamType;
use bytes::{Bytes, BytesMut};
use vstd::prelude::*;

verus! {

/// Size in bytes of every parameter header: two for the type, two for the length.
pub const PARAM_HEADER_LENGTH: usize = 4;

/// The 16-bit big-endian number held by two bytes.
pub open spec fn be_u16(hi: u8, lo: u8) -> u16 {
    (hi as int * 256 + lo as int) as u16
}

/// The two big-endian bytes of a 16-bit number.
pub open spec fn be_bytes(n: u16) -> Seq<u8> {
    seq![(n / 256) as u8, (n % 256) as u8]
}

/// The fixed type/length header shared by every parameter.
///
/// `value_length` counts the bytes of the value only, never the header's own four.
#[derive(PartialEq, Eq, Structural, Clone, Copy, Debug)]
pub struct ParamHeader {
    pub typ: ParamType,
    pub value_length: u16,
}

impl ParamHeader {
    /// The header that the first four bytes of `raw` hold.
    pub open spec fn spec_parse(raw: Seq<u8>) -> ParamHeader
        recommends
            raw.len() >= 4,
    {
        ParamHeader {
            typ: ParamType::spec_from_code(be_u16(raw[0], raw[1])),
            value_length: be_u16(raw[2], raw[3]),
        }
    }

    /// The outcome of decoding a header from `raw`.
    pub open spec fn spec_unmarshal(raw: Seq<u8>) -> Result<ParamHeader, Error> {
        if raw.len() < PARAM_HEADER_LENGTH {
            Err(Error::ErrParamHeaderTooShort)
        } else {
            Ok(ParamHeader::spec_parse(raw))
        }
    }

    /// The four wire bytes of this header.
    pub open spec fn spec_bytes(self) -> Seq<u8> {
        be_bytes(self.typ.spec_to_code()) + be_bytes(self.value_length)
    }

    /// Decodes the header at the start of `raw`; the declared length is not checked
    /// against the bytes that follow.
    pub fn unmarshal(raw: &Bytes) -> (r: Result<ParamHeader, Error>)
        ensures
            r == ParamHeader::spec_unmarshal(bytes_view(*raw)),
    {
        if bytes_len(raw) < PARAM_HEADER_LENGTH {
            return Err(Error::ErrParamHeaderTooShort);
        }
        let t_hi = bytes_at(raw, 0);
        let t_lo = bytes_at(raw, 1);
        let l_hi = bytes_at(raw, 2);
        let l_lo = bytes_at(raw, 3);
        let code: u16 = (t_hi as u16) * 256 + (t_lo as u16);
        let value_length: u16 = (l_hi as u16) * 256 + (l_lo as u16);
        Ok(ParamHeader { typ: ParamType::from_code(code), value_length })
    }

    /// Appends the header to `buf` and returns the number of bytes written, always four.
    pub fn marshal_to(&self, buf: &mut BytesMut) -> (r: Result<usize, Error>)
        requires
            buf_view(*old(buf)).len() + PARAM_HEADER_LENGTH <= isize::MAX,
        ensures
            buf_view(*final(buf)) == buf_view(*old(buf)) + self.spec_bytes(),
            r == Ok::<usize, Error>(PARAM_HEADER_LENGTH),
    {
        buf_put_u16(buf, self.typ.to_code());
        buf_put_u16(buf, self.value_length);
        proof {
            assert(buf_view(*buf) =~= buf_view(*old(buf)) + self.spec_bytes());
        }
        Ok(PARAM_HEADER_LENGTH)
    }
}

/// Decoding the bytes of a header gives back that header, whatever follows it.
pub proof fn lemma_header_round_trip(h: ParamHeader, rest: Seq<u8>)
    requires
        h.typ.wf(),
    ensures
        ParamHeader::spec_unmarshal(h.spec_bytes() + rest) == Ok::<ParamHeader, Error>(h),
{
    let raw = h.spec_bytes() + rest;
    crate::param_type::lemma_code_round_trip(h.typ);
    assert(raw[0] == (h.typ.spec_to_code() / 256) as u8);
    assert(raw[1] == (h.typ.spec_to_code() % 256) as u8);
    assert(raw[2] == (h.value_length / 256) as u8);
    assert(raw[3] == (h.value_length % 256) as u8);
    assert(be_u16(raw[0], raw[1]) == h.typ.spec_to_code());
    assert(be_u16(raw[2], raw[3]) == h.value_length);
}

} // verus!
