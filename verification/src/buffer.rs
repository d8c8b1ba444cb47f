//! Byte buffers of the `bytes` crate, and what they hold.
use vstd::prelude::*;
use bytes::{Bytes, BytesMut};

verus! {

/// `bytes::Bytes`.
#[verifier::external_type_specification]
#[verifier::external_body]
pub struct ExBytes(bytes::Bytes);

/// `bytes::BytesMut`.
#[verifier::external_type_specification]
#[verifier::external_body]
pub struct ExBytesMut(bytes::BytesMut);

/// The bytes that a `Bytes` holds.
pub uninterp spec fn bytes_content(bytes: bytes::Bytes) -> Seq<u8>;

/// The bytes that a `BytesMut` holds.
pub uninterp spec fn buffer_content(buffer: bytes::BytesMut) -> Seq<u8>;

/// `Bytes::from` on a vector: holds the vector's bytes.
#[verifier::external_body]
pub(crate) fn bytes_from_vec(vec: Vec<u8>) -> (bytes: Bytes)
    ensures
        bytes_content(bytes) == vec@,
{
    Bytes::from(vec)
}

/// `Bytes::new`: holds nothing.
#[verifier::external_body]
pub(crate) fn no_bytes() -> (bytes: Bytes)
    ensures
        bytes_content(bytes) == Seq::<u8>::empty(),
{
    Bytes::new()
}

/// `BytesMut::zeroed`: holds `len` zeros. More than `isize::MAX` bytes cannot be allocated.
#[verifier::external_body]
pub(crate) fn zeroed(len: usize) -> (buffer: BytesMut)
    requires
        len <= isize::MAX,
    ensures
        buffer_content(buffer) == Seq::new(len as nat, |i: int| 0u8),
{
    BytesMut::zeroed(len)
}

/// `BytesMut::truncate`: keeps the first `len` bytes, or all of them where there are fewer.
#[verifier::external_body]
pub(crate) fn truncate(buffer: &mut BytesMut, len: usize)
    ensures
        buffer_content(*final(buffer)) == (if len <= buffer_content(*old(buffer)).len() {
            buffer_content(*old(buffer)).take(len as int)
        } else {
            buffer_content(*old(buffer))
        }),
{
    buffer.truncate(len)
}

/// `BytesMut::from` on a slice: holds a copy of the slice.
#[verifier::external_body]
pub(crate) fn buffer_from_slice(slice: &[u8]) -> (buffer: BytesMut)
    ensures
        buffer_content(buffer) == slice@,
{
    BytesMut::from(slice)
}

} // verus!
