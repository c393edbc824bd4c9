//! The byte buffers of the `bytes` crate, as far as the encoder uses them.
//!
//! Nothing in this file is proved: each contract states what the `bytes`
//! crate does, and the encoder is verified against these statements.

use bytes::{BufMut, Bytes, BytesMut};
use vstd::prelude::*;

verus! {

#[verifier::external_type_specification]
#[verifier::external_body]
pub struct ExBytesMut(bytes::BytesMut);

#[verifier::external_type_specification]
#[verifier::external_body]
pub struct ExBytes(bytes::Bytes);

/// The bytes that a `BytesMut` holds, in the order in which they were put.
pub uninterp spec fn written(buf: BytesMut) -> Seq<u8>;

/// The number of bytes that a `BytesMut` was made to hold. The buffer never
/// holds less room than this; it does not grow by itself.
pub uninterp spec fn room(buf: BytesMut) -> nat;

/// The bytes that a `Bytes` holds.
pub uninterp spec fn frozen(bytes: Bytes) -> Seq<u8>;

/// `BytesMut::with_capacity`: an empty buffer that can take `capacity` bytes.
/// An allocation of more than `isize::MAX` bytes panics and is left out.
#[verifier::external_body]
pub(crate) fn with_capacity(capacity: usize) -> (buf: BytesMut)
    requires
        capacity <= isize::MAX,
    ensures
        written(buf) == Seq::<u8>::empty(),
        room(buf) == capacity,
{
    BytesMut::with_capacity(capacity)
}

/// `BufMut::put_slice` on a `BytesMut`: appends the bytes of `src`. The call
/// panics where the buffer has no room for them, so the caller shows that
/// they fit.
#[verifier::external_body]
pub(crate) fn put_slice(buf: &mut BytesMut, src: &[u8])
    requires
        written(*old(buf)).len() + src@.len() <= room(*old(buf)),
    ensures
        written(*final(buf)) == written(*old(buf)) + src@,
        room(*final(buf)) == room(*old(buf)),
{
    buf.put_slice(src)
}

/// `BufMut::put_u8` on a `BytesMut`: appends one byte. The call panics where
/// the buffer is full.
#[verifier::external_body]
pub(crate) fn put_u8(buf: &mut BytesMut, n: u8)
    requires
        written(*old(buf)).len() + 1 <= room(*old(buf)),
    ensures
        written(*final(buf)) == written(*old(buf)).push(n),
        room(*final(buf)) == room(*old(buf)),
{
    buf.put_u8(n)
}

/// `BufMut::put_u16_be` on a `BytesMut`: appends the two bytes of `n`, the
/// high byte first. The call panics where the buffer has no room for them.
#[verifier::external_body]
pub(crate) fn put_u16_be(buf: &mut BytesMut, n: u16)
    requires
        written(*old(buf)).len() + 2 <= room(*old(buf)),
    ensures
        written(*final(buf)) == written(*old(buf)).push((n / 256) as u8).push((n % 256) as u8),
        room(*final(buf)) == room(*old(buf)),
{
    buf.put_u16_be(n)
}

/// `BytesMut::freeze`: the same bytes, no longer to be changed.
#[verifier::external_body]
pub(crate) fn freeze(buf: BytesMut) -> (bytes: Bytes)
    ensures
        frozen(bytes) == written(buf),
{
    buf.freeze()
}

} // verus!
