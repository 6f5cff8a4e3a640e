//! The byte buffers of the `bytes` crate, as the verified code sees them.
//!
//! `Bytes` and `BytesMut` stay opaque; what they hold is named by
//! [`bytes_contents`] and [`bytes_mut_contents`], and each method that the
//! library calls has a wrapper whose contract says, over these names, what
//! the crate's source does to the contents.

use vstd::prelude::*;

use bytes::{Bytes, BytesMut};

verus! {

#[verifier::external_type_specification]
#[verifier::external_body]
pub struct ExBytes(bytes::Bytes);

#[verifier::external_type_specification]
#[verifier::external_body]
pub struct ExBytesMut(bytes::BytesMut);

/// The bytes that a `Bytes` handle shows.
pub uninterp spec fn bytes_contents(b: bytes::Bytes) -> Seq<u8>;

/// The bytes that a `BytesMut` buffer holds (its length, not its capacity).
pub uninterp spec fn bytes_mut_contents(b: bytes::BytesMut) -> Seq<u8>;

/// `<Bytes as Deref>::deref`: the slice of the bytes that the handle shows.
#[verifier::external_body]
pub(crate) fn bytes_as_slice(b: &Bytes) -> (s: &[u8])
    ensures
        s@ == bytes_contents(*b),
{
    b
}

/// `Bytes::copy_from_slice`: a new handle on a copy of `data`.
#[verifier::external_body]
pub(crate) fn bytes_copy_from_slice(data: &[u8]) -> (b: Bytes)
    ensures
        bytes_contents(b) == data@,
{
    Bytes::copy_from_slice(data)
}

/// `BytesMut::with_capacity`: an empty buffer. The underlying `Vec` panics
/// on a capacity above `isize::MAX`, which `requires` leaves out.
#[verifier::external_body]
pub(crate) fn bytes_mut_with_capacity(capacity: usize) -> (b: BytesMut)
    requires
        capacity <= isize::MAX,
    ensures
        bytes_mut_contents(b) == Seq::<u8>::empty(),
{
    BytesMut::with_capacity(capacity)
}

/// `BytesMut::from(&[u8])`: a buffer holding a copy of `data`.
#[verifier::external_body]
pub(crate) fn bytes_mut_from_slice(data: &[u8]) -> (b: BytesMut)
    ensures
        bytes_mut_contents(b) == data@,
{
    BytesMut::from(data)
}

/// `BytesMut::extend_from_slice`: appends `data`.
///
/// The crate reserves the new length first, which panics when it overflows
/// or exceeds what a `Vec` may hold; `requires` keeps the new length within
/// `isize::MAX`. Space that an earlier `split` left in front of the buffer
/// also counts toward the allocation; that part is not stated.
#[verifier::external_body]
pub(crate) fn bytes_mut_extend_from_slice(b: &mut BytesMut, data: &[u8])
    requires
        bytes_mut_contents(*old(b)).len() + data@.len() <= isize::MAX,
    ensures
        bytes_mut_contents(*final(b)) == bytes_mut_contents(*old(b)) + data@,
{
    b.extend_from_slice(data)
}

/// `BytesMut::freeze`: the same bytes as an immutable handle.
#[verifier::external_body]
pub(crate) fn bytes_mut_freeze(b: BytesMut) -> (r: Bytes)
    ensures
        bytes_contents(r) == bytes_mut_contents(b),
{
    b.freeze()
}

/// `BytesMut::split`: takes all the bytes out, leaving the buffer empty.
#[verifier::external_body]
pub(crate) fn bytes_mut_split(b: &mut BytesMut) -> (r: BytesMut)
    ensures
        bytes_mut_contents(r) == bytes_mut_contents(*old(b)),
        bytes_mut_contents(*final(b)) == Seq::<u8>::empty(),
{
    b.split()
}

/// `BytesMut::clear`: empties the buffer.
#[verifier::external_body]
pub(crate) fn bytes_mut_clear(b: &mut BytesMut)
    ensures
        bytes_mut_contents(*final(b)) == Seq::<u8>::empty(),
{
    b.clear()
}

/// `BytesMut::len`: the number of bytes held.
#[verifier::external_body]
pub(crate) fn bytes_mut_len(b: &BytesMut) -> (n: usize)
    ensures
        n as int == bytes_mut_contents(*b).len(),
{
    b.len()
}

/// `<BytesMut as Clone>::clone`: a new buffer with the same bytes.
#[verifier::external_body]
pub(crate) fn bytes_mut_clone(b: &BytesMut) -> (r: BytesMut)
    ensures
        bytes_mut_contents(r) == bytes_mut_contents(*b),
{
    b.clone()
}

} // verus!
