//! The byte buffer of the `bytes` crate, as far as packets need it.
use bytes::{Buf, BufMut, BytesMut};
use vstd::prelude::*;

verus! {

/// `bytes::BytesMut`, a growable buffer that is read from its front. What it
/// holds is [`contents`].
#[verifier::external_type_specification]
#[verifier::external_body]
pub struct ExBytesMut(bytes::BytesMut);

/// The bytes in a buffer that have not been read yet.
pub uninterp spec fn contents(buffer: BytesMut) -> Seq<u8>;

/// Whether a buffer with `len` bytes can take `more` bytes. A buffer grows in
/// steps that can reach four times what it then holds, and an allocation of
/// more than `isize::MAX` bytes panics.
pub open spec fn has_room(len: nat, more: nat) -> bool {
    len + more <= isize::MAX / 4
}

/// A 16-bit number in big-endian byte order.
pub open spec fn big_endian(n: u16) -> Seq<u8> {
    seq![(n / 256) as u8, (n % 256) as u8]
}

/// The number of bytes in a buffer. `BytesMut::len` is claimed to return the
/// length of the buffer's contents.
pub assume_specification[ BytesMut::len ](buffer: &BytesMut) -> (len: usize)
    ensures
        len == contents(*buffer).len(),
;

/// `BytesMut::split` is claimed to hand out all of the buffer's contents and
/// to leave the buffer empty.
pub assume_specification[ BytesMut::split ](buffer: &mut BytesMut) -> (taken: BytesMut)
    ensures
        contents(taken) == contents(*old(buffer)),
        contents(*final(buffer)) == Seq::<u8>::empty(),
;

/// Append a byte. `BufMut::put_u8` on a `BytesMut` is claimed to add the byte
/// at the end and to change nothing else.
#[verifier::external_body]
pub(crate) fn put_u8(buffer: &mut BytesMut, byte: u8)
    requires
        has_room(contents(*old(buffer)).len(), 1),
    ensures
        contents(*final(buffer)) == contents(*old(buffer)).push(byte),
{
    buffer.put_u8(byte)
}

/// Append a number. `BufMut::put_u16` on a `BytesMut` is claimed to add the
/// two bytes of the number in big-endian order and to change nothing else.
#[verifier::external_body]
pub(crate) fn put_u16(buffer: &mut BytesMut, number: u16)
    requires
        has_room(contents(*old(buffer)).len(), 2),
    ensures
        contents(*final(buffer)) == contents(*old(buffer)) + big_endian(number),
{
    buffer.put_u16(number)
}

/// Read a byte. `Buf::get_u8` on a `BytesMut` is claimed to return the first
/// byte and to remove it. It panics on an empty buffer.
#[verifier::external_body]
pub(crate) fn get_u8(buffer: &mut BytesMut) -> (byte: u8)
    requires
        contents(*old(buffer)).len() >= 1,
    ensures
        byte == contents(*old(buffer))[0],
        contents(*final(buffer)) == contents(*old(buffer)).skip(1),
{
    buffer.get_u8()
}

/// Read a number. `Buf::get_u16` on a `BytesMut` is claimed to return the
/// number that the first two bytes make in big-endian order and to remove
/// them. It panics on a buffer with fewer bytes.
#[verifier::external_body]
pub(crate) fn get_u16(buffer: &mut BytesMut) -> (number: u16)
    requires
        contents(*old(buffer)).len() >= 2,
    ensures
        number == contents(*old(buffer))[0] * 256 + contents(*old(buffer))[1],
        contents(*final(buffer)) == contents(*old(buffer)).skip(2),
{
    buffer.get_u16()
}

/// Append a whole buffer. `Extend<u8>::extend` on a `BytesMut`, given a
/// `BytesMut`, is claimed to add the bytes of the latter in their order.
#[verifier::external_body]
pub(crate) fn extend(buffer: &mut BytesMut, more: BytesMut)
    requires
        has_room(contents(*old(buffer)).len(), contents(more).len()),
    ensures
        contents(*final(buffer)) == contents(*old(buffer)) + contents(more),
{
    buffer.extend(more)
}

/// Append a slice. `Extend<&u8>::extend` on a `BytesMut`, given a slice, is
/// claimed to add the bytes of the slice in their order.
#[verifier::external_body]
pub(crate) fn extend_from_slice(buffer: &mut BytesMut, more: &[u8])
    requires
        has_room(contents(*old(buffer)).len(), more@.len()),
    ensures
        contents(*final(buffer)) == contents(*old(buffer)) + more@,
{
    buffer.extend(more)
}

} // verus!
