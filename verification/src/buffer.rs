//! The byte buffers of the `bytes` crate, as the rest of the library sees
//! them: a sequence of bytes behind each handle, and the handful of
//! operations on it that the codecs use. Nothing in this file is proved; each
//! contract restates what the `bytes` and `byteorder` sources show.
use bytes::{BufMut, ByteOrder, Bytes, BytesMut, LittleEndian};
use vstd::bytes::{
    spec_u16_from_le_bytes, spec_u16_to_le_bytes, spec_u64_from_le_bytes, spec_u64_to_le_bytes,
};
use vstd::prelude::*;

verus! {

/// `bytes::Bytes`: a handle on a string of bytes that is not written to any
/// more. Nothing is known of what is inside but through `bytes_seq`.
#[verifier::external_type_specification]
#[verifier::external_body]
pub struct ExBytes(bytes::Bytes);

/// `bytes::BytesMut`: a buffer of bytes that grows at its end. Nothing is
/// known of what is inside but through `bytes_mut_seq`.
#[verifier::external_type_specification]
#[verifier::external_body]
pub struct ExBytesMut(bytes::BytesMut);

/// `std::io::Error`: the error of the stream traits that the codec is used
/// under. The library makes none and reads none.
#[verifier::external_type_specification]
#[verifier::external_body]
pub struct ExIoError(std::io::Error);

/// The bytes that a `Bytes` handle gives access to, in order.
pub uninterp spec fn bytes_seq(b: Bytes) -> Seq<u8>;

/// The bytes written so far to a `BytesMut`, in order.
pub uninterp spec fn bytes_mut_seq(b: BytesMut) -> Seq<u8>;

/// `Bytes::len`: the number of bytes behind the handle.
pub assume_specification[ Bytes::len ](b: &Bytes) -> (n: usize)
    ensures
        n == bytes_seq(*b).len(),
;

/// `Bytes::split_to`: the first `at` bytes are returned and the handle keeps
/// the rest. The call panics when `at` exceeds the length.
pub assume_specification[ Bytes::split_to ](b: &mut Bytes, at: usize) -> (head: Bytes)
    requires
        at <= bytes_seq(*old(b)).len(),
    ensures
        bytes_seq(head) == bytes_seq(*old(b)).subrange(0, at as int),
        bytes_seq(*final(b)) == bytes_seq(*old(b)).subrange(
            at as int,
            bytes_seq(*old(b)).len() as int,
        ),
;

/// `BytesMut::new`: an empty buffer.
pub assume_specification[ BytesMut::new ]() -> (b: BytesMut)
    ensures
        bytes_mut_seq(b) == Seq::<u8>::empty(),
;

/// `BytesMut::with_capacity`: an empty buffer, whatever room was asked for.
/// The call panics when it asks the allocator for more than a `Vec` can hold.
pub assume_specification[ BytesMut::with_capacity ](capacity: usize) -> (b: BytesMut)
    requires
        capacity <= isize::MAX,
    ensures
        bytes_mut_seq(b) == Seq::<u8>::empty(),
;

/// `BytesMut::capacity`: the room that the buffer has, of which nothing is
/// said here.
pub assume_specification[ BytesMut::capacity ](b: &BytesMut) -> (n: usize)
;

/// `BytesMut::len`: the number of bytes written so far.
pub assume_specification[ BytesMut::len ](b: &BytesMut) -> (n: usize)
    ensures
        n == bytes_mut_seq(*b).len(),
;

/// `BytesMut::split_to`: the first `at` bytes are returned and the buffer
/// keeps the rest. The call panics when `at` exceeds the length.
pub assume_specification[ BytesMut::split_to ](b: &mut BytesMut, at: usize) -> (head: BytesMut)
    requires
        at <= bytes_mut_seq(*old(b)).len(),
    ensures
        bytes_mut_seq(head) == bytes_mut_seq(*old(b)).subrange(0, at as int),
        bytes_mut_seq(*final(b)) == bytes_mut_seq(*old(b)).subrange(
            at as int,
            bytes_mut_seq(*old(b)).len() as int,
        ),
;

/// `BytesMut::freeze`: the same bytes behind an immutable handle.
pub assume_specification[ BytesMut::freeze ](b: BytesMut) -> (frozen: Bytes)
    ensures
        bytes_seq(frozen) == bytes_mut_seq(b),
;

/// `BytesMut::reserve`: makes room and leaves the contents alone. The call
/// panics when it asks the allocator for more than a `Vec` can hold, which
/// is `isize::MAX` bytes.
pub assume_specification[ BytesMut::reserve ](b: &mut BytesMut, additional: usize)
    requires
        bytes_mut_seq(*old(b)).len() + additional <= isize::MAX,
    ensures
        bytes_mut_seq(*final(b)) == bytes_mut_seq(*old(b)),
;

/// `BytesMut::extend_from_slice`: reserves, then appends the slice.
pub assume_specification[ BytesMut::extend_from_slice ](b: &mut BytesMut, extend: &[u8])
    requires
        bytes_mut_seq(*old(b)).len() + extend@.len() <= isize::MAX,
    ensures
        bytes_mut_seq(*final(b)) == bytes_mut_seq(*old(b)) + extend@,
;

/// `Bytes::as_ref`: the bytes behind the handle as a slice.
#[verifier::external_body]
pub(crate) fn bytes_slice(b: &Bytes) -> (s: &[u8])
    ensures
        s@ == bytes_seq(*b),
{
    b.as_ref()
}

/// `BytesMut::as_ref`: the bytes written so far as a slice.
#[verifier::external_body]
pub(crate) fn bytes_mut_slice(b: &BytesMut) -> (s: &[u8])
    ensures
        s@ == bytes_mut_seq(*b),
{
    b.as_ref()
}

/// `Bytes::eq`: two handles are equal when they hold the same bytes.
#[verifier::external_body]
pub(crate) fn bytes_eq(a: &Bytes, b: &Bytes) -> (same: bool)
    ensures
        same == (bytes_seq(*a) == bytes_seq(*b)),
{
    a.eq(b)
}

/// `Bytes::clone`: a second handle on the same bytes.
pub assume_specification[ <Bytes as Clone>::clone ](b: &Bytes) -> (copy: Bytes)
    ensures
        bytes_seq(copy) == bytes_seq(*b),
;

/// `BufMut::put_u8` on a `BytesMut`, after a `BytesMut::reserve` of one byte:
/// the put panics on a full buffer, and the reservation rules that out.
#[verifier::external_body]
pub(crate) fn put_u8(b: &mut BytesMut, n: u8)
    requires
        bytes_mut_seq(*old(b)).len() + 1 <= isize::MAX,
    ensures
        bytes_mut_seq(*final(b)) == bytes_mut_seq(*old(b)).push(n),
{
    b.reserve(1);
    b.put_u8(n);
}

/// `BufMut::put_u16_le` on a `BytesMut`, after a `BytesMut::reserve` of two
/// bytes: appends `n` with its low byte first.
#[verifier::external_body]
pub(crate) fn put_u16_le(b: &mut BytesMut, n: u16)
    requires
        bytes_mut_seq(*old(b)).len() + 2 <= isize::MAX,
    ensures
        bytes_mut_seq(*final(b)) == bytes_mut_seq(*old(b)) + spec_u16_to_le_bytes(n),
{
    b.reserve(2);
    b.put_u16_le(n);
}

/// `BufMut::put_u64_le` on a `BytesMut`, after a `BytesMut::reserve` of eight
/// bytes: appends `n` with its low byte first.
#[verifier::external_body]
pub(crate) fn put_u64_le(b: &mut BytesMut, n: u64)
    requires
        bytes_mut_seq(*old(b)).len() + 8 <= isize::MAX,
    ensures
        bytes_mut_seq(*final(b)) == bytes_mut_seq(*old(b)) + spec_u64_to_le_bytes(n),
{
    b.reserve(8);
    b.put_u64_le(n);
}

/// `LittleEndian::read_u16`: the number that the first two bytes of the slice
/// spell, low byte first. The call panics on a shorter slice.
#[verifier::external_body]
pub(crate) fn read_u16_le(s: &[u8]) -> (n: u16)
    requires
        s@.len() >= 2,
    ensures
        n == spec_u16_from_le_bytes(s@.subrange(0, 2)),
{
    LittleEndian::read_u16(s)
}

/// `LittleEndian::read_u64`: the number that the first eight bytes of the
/// slice spell, low byte first. The call panics on a shorter slice.
#[verifier::external_body]
pub(crate) fn read_u64_le(s: &[u8]) -> (n: u64)
    requires
        s@.len() >= 8,
    ensures
        n == spec_u64_from_le_bytes(s@.subrange(0, 8)),
{
    LittleEndian::read_u64(s)
}

} // verus!
