use crate::buffer::{
    buf_freeze, buf_len, buf_new, buf_put_u8, buf_view, bytes_at, bytes_len, bytes_view,
};
use crate::chunk_type::ChunkType;
use crate::error::Error;
use crate::param_header::{ParamHeader, PARAM_HEADER_LENGTH};
use crate::param_type::ParamType;
use bytes::{Bytes, BytesMut};
use vstd::prelude::*;

verus! {

/// The wire bytes of a sequence of chunk types, one byte each.
pub open spec fn chunk_bytes(s: Seq<ChunkType>) -> Seq<u8> {
    s.map_values(|c: ChunkType| c.spec_to_byte())
}

/// The chunk types that a sequence of wire bytes denotes, one per byte.
pub open spec fn chunk_types_of(b: Seq<u8>) -> Seq<ChunkType> {
    b.map_values(|x: u8| ChunkType::spec_from_byte(x))
}

/// The header of a chunk list parameter holding `s`; meaningful where the number of
/// entries fits the 16-bit length field.
pub open spec fn chunk_list_header(s: Seq<ChunkType>) -> ParamHeader {
    ParamHeader { typ: ParamType::ChunkList, value_length: s.len() as u16 }
}

/// The full wire form of a chunk list parameter holding `s`: header, then one byte
/// per chunk type.
pub open spec fn chunk_list_encode(s: Seq<ChunkType>) -> Seq<u8> {
    chunk_list_header(s).spec_bytes() + chunk_bytes(s)
}

/// The outcome of decoding a chunk list parameter from `raw`: every byte after the
/// header is one chunk type, whatever length the header declares.
pub open spec fn chunk_list_decode(raw: Seq<u8>) -> Result<Seq<ChunkType>, Error> {
    match ParamHeader::spec_unmarshal(raw) {
        Err(e) => Err(e),
        Ok(h) => if h.typ != ParamType::ChunkList {
            Err(Error::ErrParamTypeUnexpected)
        } else {
            Ok(chunk_types_of(raw.subrange(PARAM_HEADER_LENGTH as int, raw.len() as int)))
        },
    }
}

/// A parameter listing chunk types, one byte per entry and no padding.
#[derive(Clone, Debug)]
pub struct ParamChunkList {
    pub chunk_types: Vec<ChunkType>,
}

impl PartialEq for ParamChunkList {
    fn eq(&self, other: &ParamChunkList) -> (r: bool) {
        if self.chunk_types.len() != other.chunk_types.len() {
            return false;
        }
        let mut i: usize = 0;
        while i < self.chunk_types.len()
            invariant
                self.chunk_types@.len() == other.chunk_types@.len(),
                0 <= i <= self.chunk_types@.len(),
                forall|j: int| 0 <= j < i ==> self.chunk_types@[j] == other.chunk_types@[j],
            decreases self.chunk_types@.len() - i,
        {
            if self.chunk_types[i] != other.chunk_types[i] {
                return false;
            }
            i = i + 1;
        }
        proof {
            assert(self.chunk_types@ =~= other.chunk_types@);
        }
        true
    }
}

impl vstd::std_specs::cmp::PartialEqSpecImpl for ParamChunkList {
    open spec fn obeys_eq_spec() -> bool {
        true
    }

    open spec fn eq_spec(&self, other: &ParamChunkList) -> bool {
        self.chunk_types@ == other.chunk_types@
    }
}

impl ParamChunkList {
    /// The header of this parameter, derived from its chunk types.
    pub open spec fn spec_header(&self) -> ParamHeader {
        chunk_list_header(self.chunk_types@)
    }

    /// The header: the chunk list type, and the number of entries as the value length.
    pub fn header(&self) -> (r: ParamHeader)
        requires
            self.chunk_types@.len() <= u16::MAX,
        ensures
            r == self.spec_header(),
            r.typ == ParamType::ChunkList,
            r.value_length == self.chunk_types@.len(),
    {
        ParamHeader { typ: ParamType::ChunkList, value_length: self.value_length() as u16 }
    }

    /// Decodes a chunk list parameter. Fails when the header is truncated or its type
    /// is not the chunk list type; otherwise every remaining byte is one chunk type.
    pub fn unmarshal(raw: &Bytes) -> (r: Result<ParamChunkList, Error>)
        ensures
            match r {
                Ok(p) => chunk_list_decode(bytes_view(*raw)) == Ok::<Seq<ChunkType>, Error>(
                    p.chunk_types@,
                ),
                Err(e) => chunk_list_decode(bytes_view(*raw)) == Err::<Seq<ChunkType>, Error>(e),
            },
    {
        let header = match ParamHeader::unmarshal(raw) {
            Ok(h) => h,
            Err(e) => return Err(e),
        };
        if header.typ != ParamType::ChunkList {
            return Err(Error::ErrParamTypeUnexpected);
        }
        let ghost raw_v = bytes_view(*raw);
        let n = bytes_len(raw);
        let mut chunk_types: Vec<ChunkType> = Vec::new();
        let mut i: usize = PARAM_HEADER_LENGTH;
        while i < n
            invariant
                PARAM_HEADER_LENGTH <= i <= n,
                n == raw_v.len(),
                raw_v == bytes_view(*raw),
                chunk_types@ == chunk_types_of(raw_v.subrange(PARAM_HEADER_LENGTH as int, i as int)),
            decreases n - i,
        {
            let b = bytes_at(raw, i);
            chunk_types.push(ChunkType::from_byte(b));
            i = i + 1;
            proof {
                assert(raw_v.subrange(PARAM_HEADER_LENGTH as int, i as int) =~= raw_v.subrange(
                    PARAM_HEADER_LENGTH as int,
                    i - 1,
                ).push(b));
                assert(chunk_types@ =~= chunk_types_of(
                    raw_v.subrange(PARAM_HEADER_LENGTH as int, i as int),
                ));
            }
        }
        Ok(ParamChunkList { chunk_types })
    }

    /// Appends the header and then one byte per chunk type to `buf`, and returns the
    /// buffer's total length afterwards.
    pub fn marshal_to(&self, buf: &mut BytesMut) -> (r: Result<usize, Error>)
        requires
            self.chunk_types@.len() <= u16::MAX,
            buf_view(*old(buf)).len() + PARAM_HEADER_LENGTH + self.chunk_types@.len()
                <= isize::MAX,
        ensures
            buf_view(*final(buf)) == buf_view(*old(buf)) + chunk_list_encode(self.chunk_types@),
            r == Ok::<usize, Error>(buf_view(*final(buf)).len() as usize),
    {
        let h = self.header();
        let _ = h.marshal_to(buf);
        let ghost start = buf_view(*buf);
        let mut i: usize = 0;
        while i < self.chunk_types.len()
            invariant
                0 <= i <= self.chunk_types@.len(),
                start == buf_view(*old(buf)) + h.spec_bytes(),
                buf_view(*buf) == start + chunk_bytes(self.chunk_types@.subrange(0, i as int)),
                buf_view(*old(buf)).len() + PARAM_HEADER_LENGTH + self.chunk_types@.len()
                    <= isize::MAX,
            decreases self.chunk_types@.len() - i,
        {
            let c = self.chunk_types[i].to_byte();
            buf_put_u8(buf, c);
            i = i + 1;
            proof {
                assert(self.chunk_types@.subrange(0, i as int) =~= self.chunk_types@.subrange(
                    0,
                    i - 1,
                ).push(self.chunk_types@[i - 1]));
                assert(buf_view(*buf) =~= start + chunk_bytes(
                    self.chunk_types@.subrange(0, i as int),
                ));
            }
        }
        proof {
            assert(self.chunk_types@.subrange(0, i as int) =~= self.chunk_types@);
            assert(buf_view(*buf) =~= buf_view(*old(buf)) + chunk_list_encode(self.chunk_types@));
        }
        Ok(buf_len(buf))
    }

    /// The full wire form of this parameter in a buffer of its own.
    pub fn marshal(&self) -> (r: Result<Bytes, Error>)
        requires
            self.chunk_types@.len() <= u16::MAX,
        ensures
            r is Ok,
            bytes_view(r->Ok_0) == chunk_list_encode(self.chunk_types@),
    {
        let mut buf = buf_new();
        let _ = self.marshal_to(&mut buf);
        proof {
            assert(buf_view(buf) =~= chunk_list_encode(self.chunk_types@));
        }
        Ok(buf_freeze(buf))
    }

    /// The byte count of the value: one byte per chunk type.
    pub fn value_length(&self) -> (r: usize)
        ensures
            r == self.chunk_types@.len(),
    {
        self.chunk_types.len()
    }
}

/// Decoding the encoding of any sequence of canonical chunk types whose length fits
/// the header, the empty one included, gives back that sequence.
pub proof fn lemma_round_trip(s: Seq<ChunkType>)
    requires
        s.len() <= u16::MAX,
        forall|i: int| 0 <= i < s.len() ==> #[trigger] s[i].wf(),
    ensures
        chunk_list_decode(chunk_list_encode(s)) == Ok::<Seq<ChunkType>, Error>(s),
{
    let h = chunk_list_header(s);
    let raw = chunk_list_encode(s);
    crate::param_header::lemma_header_round_trip(h, chunk_bytes(s));
    assert(raw.subrange(4, raw.len() as int) =~= chunk_bytes(s));
    assert forall|i: int| 0 <= i < s.len() implies chunk_types_of(chunk_bytes(s))[i] == s[i] by {
        crate::chunk_type::lemma_byte_round_trip(s[i]);
    }
    assert(chunk_types_of(chunk_bytes(s)) =~= s);
}

/// The header's value length, the value length and the number of entries agree for
/// every list that a header can describe.
pub proof fn lemma_header_consistency(p: ParamChunkList)
    requires
        p.chunk_types@.len() <= u16::MAX,
    ensures
        p.spec_header().value_length == p.chunk_types@.len(),
        p.spec_header().typ == ParamType::ChunkList,
{
}

/// A span of at least four bytes whose header names another parameter type fails
/// with the type mismatch error, whatever its value holds.
pub proof fn lemma_type_mismatch(raw: Seq<u8>)
    requires
        raw.len() >= PARAM_HEADER_LENGTH,
        ParamHeader::spec_parse(raw).typ != ParamType::ChunkList,
    ensures
        chunk_list_decode(raw) == Err::<Seq<ChunkType>, Error>(Error::ErrParamTypeUnexpected),
{
}

/// A span shorter than a header fails with the truncated header error.
pub proof fn lemma_truncated(raw: Seq<u8>)
    requires
        raw.len() < PARAM_HEADER_LENGTH,
    ensures
        chunk_list_decode(raw) == Err::<Seq<ChunkType>, Error>(Error::ErrParamHeaderTooShort),
{
}

/// Once the header names the chunk list type, decoding succeeds whatever the value
/// bytes are; a byte without a named chunk type becomes `Unknown` with that byte.
pub proof fn lemma_unknown_bytes_accepted(raw: Seq<u8>, i: int)
    requires
        raw.len() >= PARAM_HEADER_LENGTH,
        ParamHeader::spec_parse(raw).typ == ParamType::ChunkList,
        PARAM_HEADER_LENGTH <= i < raw.len(),
        ChunkType::spec_from_byte(raw[i]) is Unknown,
    ensures
        chunk_list_decode(raw) is Ok,
        chunk_list_decode(raw)->Ok_0.len() == raw.len() - PARAM_HEADER_LENGTH,
        chunk_list_decode(raw)->Ok_0[i - PARAM_HEADER_LENGTH] == ChunkType::Unknown(raw[i]),
{
}

} // verus!
