use bytes::{BufMut, Bytes, BytesMut};
use vstd::prelude::*;

verus! {

#[verifier::external_type_specification]
#[verifier::external_body]
pub struct ExBytes(Bytes);

#[verifier::external_type_specification]
#[verifier::external_body]
pub struct ExBytesMut(BytesMut);

/// The bytes held by an immutable buffer, in order.
pub uninterp spec fn bytes_view(b: Bytes) -> Seq<u8>;

/// The bytes written so far into a growable buffer, in order.
pub uninterp spec fn buf_view(b: BytesMut) -> Seq<u8>;

/// Relies on `Bytes::len`: the number of bytes the buffer holds.
#[verifier::external_body]
pub(crate) fn bytes_len(b: &Bytes) -> (r: usize)
    ensures
        r == bytes_view(*b).len(),
{
    b.len()
}

/// Relies on indexing through `Bytes`'s `Deref` to `[u8]`: the byte at a position.
#[verifier::external_body]
pub(crate) fn bytes_at(b: &Bytes, i: usize) -> (r: u8)
    requires
        i < bytes_view(*b).len(),
    ensures
        r == bytes_view(*b)[i as int],
{
    b[i]
}

/// Relies on `BytesMut::len`: the number of bytes written so far.
#[verifier::external_body]
pub(crate) fn buf_len(b: &BytesMut) -> (r: usize)
    ensures
        r == buf_view(*b).len(),
{
    b.len()
}

/// Relies on `BytesMut::new`: a buffer holding no bytes.
#[verifier::external_body]
pub(crate) fn buf_new() -> (r: BytesMut)
    ensures
        buf_view(r) == Seq::<u8>::empty(),
{
    BytesMut::new()
}

/// Relies on `BytesMut::freeze`: an immutable buffer holding the same bytes.
#[verifier::external_body]
pub(crate) fn buf_freeze(b: BytesMut) -> (r: Bytes)
    ensures
        bytes_view(r) == buf_view(b),
{
    b.freeze()
}

/// Relies on `BufMut::put_u8` for `BytesMut`: appends one byte, growing the buffer.
#[verifier::external_body]
pub(crate) fn buf_put_u8(b: &mut BytesMut, n: u8)
    requires
        buf_view(*old(b)).len() + 1 <= isize::MAX,
    ensures
        buf_view(*final(b)) == buf_view(*old(b)).push(n),
{
    b.put_u8(n)
}

/// Relies on `BufMut::put_u16` for `BytesMut`: appends the two big-endian bytes of `n`.
#[verifier::external_body]
pub(crate) fn buf_put_u16(b: &mut BytesMut, n: u16)
    requires
        buf_view(*old(b)).len() + 2 <= isize::MAX,
    ensures
        buf_view(*final(b)) == buf_view(*old(b)) + seq![(n / 256) as u8, (n % 256) as u8],
{
    b.put_u16(n)
}

} // verus!
