//! What this library assumes of the byte buffers of the `bytes` crate.
//!
//! Nothing in this file is proved. Each item states, over the sequence of bytes that a
//! buffer holds, what the method of that name does to it.

use bytes::{Bytes, BytesMut};
use vstd::prelude::*;

verus! {

/// `bytes::BytesMut`, a growable buffer of bytes.
#[verifier::external_type_specification]
#[verifier::external_body]
pub struct ExBytesMut(bytes::BytesMut);

/// `bytes::Bytes`, an immutable buffer of bytes.
#[verifier::external_type_specification]
#[verifier::external_body]
pub struct ExBytes(bytes::Bytes);

/// The bytes that a `BytesMut` holds, first to last.
pub uninterp spec fn bytes_mut_contents(b: BytesMut) -> Seq<u8>;

/// The bytes that a `Bytes` holds, first to last.
pub uninterp spec fn bytes_contents(b: Bytes) -> Seq<u8>;

/// `BytesMut::new` returns a buffer that holds nothing.
pub assume_specification[ BytesMut::new ]() -> (b: BytesMut)
    ensures
        bytes_mut_contents(b) == Seq::<u8>::empty(),
;

/// `BytesMut::len` counts the bytes held.
pub assume_specification[ BytesMut::len ](b: &BytesMut) -> (n: usize)
    ensures
        n == bytes_mut_contents(*b).len(),
;

/// A buffer that holds a copy of the slice.
///
/// Wraps `BytesMut`'s `From<&[u8]>`, which copies the slice into a new buffer.
#[verifier::external_body]
pub(crate) fn bytes_mut_from_slice(src: &[u8]) -> (b: BytesMut)
    ensures
        bytes_mut_contents(b) == src@,
{
    BytesMut::from(src)
}

/// `BytesMut::split_to` cuts the buffer at `at`: the bytes before it are returned, the
/// bytes from it on stay. It panics beyond the end, so the call is kept within it.
pub assume_specification[ BytesMut::split_to ](b: &mut BytesMut, at: usize) -> (head: BytesMut)
    requires
        at <= bytes_mut_contents(*old(b)).len(),
    ensures
        bytes_mut_contents(head) == bytes_mut_contents(*old(b)).take(at as int),
        bytes_mut_contents(*final(b)) == bytes_mut_contents(*old(b)).skip(at as int),
;

/// `BytesMut::freeze` turns the buffer into an immutable one that holds the same bytes.
pub assume_specification[ BytesMut::freeze ](b: BytesMut) -> (frozen: Bytes)
    ensures
        bytes_contents(frozen) == bytes_mut_contents(b),
;

/// Drops the first `cnt` bytes of the buffer.
///
/// Wraps `Buf::advance` for `BytesMut`, which removes `cnt` bytes from the front and
/// panics where fewer are held, so the call is kept within what is held.
#[verifier::external_body]
pub(crate) fn bytes_mut_advance(b: &mut BytesMut, cnt: usize)
    requires
        cnt <= bytes_mut_contents(*old(b)).len(),
    ensures
        bytes_mut_contents(*final(b)) == bytes_mut_contents(*old(b)).skip(cnt as int),
{
    bytes::Buf::advance(b, cnt)
}

/// The bytes of a `BytesMut` as a slice.
///
/// Wraps `BytesMut`'s `AsRef<[u8]>`, which borrows everything the buffer holds.
#[verifier::external_body]
pub(crate) fn bytes_mut_as_slice(b: &BytesMut) -> (s: &[u8])
    ensures
        s@ == bytes_mut_contents(*b),
{
    b.as_ref()
}

/// The bytes of a `Bytes` as a slice.
///
/// Wraps `Bytes`'s `AsRef<[u8]>`, which borrows everything the buffer holds.
#[verifier::external_body]
pub(crate) fn bytes_as_slice(b: &Bytes) -> (s: &[u8])
    ensures
        s@ == bytes_contents(*b),
{
    b.as_ref()
}

} // verus!
