//! The byte buffer that frames are read from and written to.
//!
//! Frames live in `bytes::BytesMut`. Verus cannot look inside that type, so
//! this module names its contents as a sequence of bytes and states, for each
//! operation the protocol uses, what the operation does to that sequence.
//! Nothing in this module is proved: every contract here is taken from the
//! documentation and source of the `bytes` crate. As with the standard
//! collections, the allocator is not modelled: a buffer may grow as long as
//! its length stays within what one allocation may span, and running out of
//! memory ends the process.

use bytes::{Buf, BufMut, BytesMut};
use vstd::prelude::*;
use vstd::string::StringSliceAdditionalSpecFns;

verus! {

/// Makes `bytes::BytesMut` known to Verus as an opaque type.
#[verifier::external_type_specification]
#[verifier::external_body]
pub struct ExBytesMut(BytesMut);

/// The bytes a buffer currently holds, front first.
pub uninterp spec fn contents(buffer: BytesMut) -> Seq<u8>;

/// The four bytes that stand for `n` in big-endian order, most significant
/// byte first.
pub open spec fn be_bytes(n: u32) -> Seq<u8> {
    seq![
        (n / 0x100_0000) as u8,
        ((n / 0x1_0000) % 0x100) as u8,
        ((n / 0x100) % 0x100) as u8,
        (n % 0x100) as u8,
    ]
}

/// `BytesMut::with_capacity`: a new buffer that holds no bytes. The capacity
/// is only a hint for allocation; the request must stay within what one
/// allocation may span.
pub assume_specification[ BytesMut::with_capacity ](capacity: usize) -> (buffer: BytesMut)
    requires
        capacity <= isize::MAX,
    ensures
        contents(buffer) == Seq::<u8>::empty(),
;

/// `BytesMut::len`: the number of bytes held.
pub assume_specification[ BytesMut::len ](buffer: &BytesMut) -> (n: usize)
    ensures
        n == contents(*buffer).len(),
;

/// `BytesMut::split_to`: removes the first `at` bytes from the buffer and
/// returns them as a buffer of their own. It panics when `at` exceeds the
/// length, which the precondition rules out.
pub assume_specification[ BytesMut::split_to ](buffer: &mut BytesMut, at: usize) -> (front:
    BytesMut)
    requires
        at <= contents(*old(buffer)).len(),
    ensures
        contents(front) == contents(*old(buffer)).take(at as int),
        contents(*final(buffer)) == contents(*old(buffer)).skip(at as int),
;

/// `BytesMut::extend_from_slice`: appends the slice's bytes at the back,
/// growing the buffer as needed. The total must stay within what one
/// allocation may span.
pub assume_specification[ BytesMut::extend_from_slice ](buffer: &mut BytesMut, extend: &[u8])
    requires
        contents(*old(buffer)).len() + extend@.len() <= isize::MAX,
    ensures
        contents(*final(buffer)) == contents(*old(buffer)) + extend@,
;

/// `Deref` of `BytesMut`: the held bytes as a slice.
#[verifier::external_body]
pub(crate) fn as_slice(buffer: &BytesMut) -> (bytes: &[u8])
    ensures
        bytes@ == contents(*buffer),
{
    &buffer[..]
}

/// `Buf::advance` on `BytesMut`: drops the first `count` bytes. It panics
/// when `count` exceeds the length, which the precondition rules out.
#[verifier::external_body]
pub(crate) fn advance(buffer: &mut BytesMut, count: usize)
    requires
        count <= contents(*old(buffer)).len(),
    ensures
        contents(*final(buffer)) == contents(*old(buffer)).skip(count as int),
{
    buffer.advance(count)
}

/// `BufMut::put_u32` on `BytesMut`: appends `n` as four bytes in big-endian
/// order, growing the buffer as needed.
#[verifier::external_body]
pub(crate) fn put_u32(buffer: &mut BytesMut, n: u32)
    requires
        contents(*old(buffer)).len() + 4 <= isize::MAX,
    ensures
        contents(*final(buffer)) == contents(*old(buffer)) + be_bytes(n),
{
    buffer.put_u32(n)
}

/// `From<&str>` for `BytesMut`: a buffer that holds the text's UTF-8 bytes.
#[verifier::external_body]
pub(crate) fn from_text(text: &str) -> (buffer: BytesMut)
    ensures
        contents(buffer) == text.spec_bytes(),
{
    BytesMut::from(text)
}

} // verus!
