//! The byte buffer of the stream transport, `bytes::BytesMut`, and what is
//! taken on trust of the few methods that the codec calls on it.

use bytes::BytesMut;
use vstd::prelude::*;

verus! {

/// The buffer type of the `bytes` crate, carried through as it is.
#[verifier::external_type_specification]
#[verifier::external_body]
pub struct ExBytesMut(BytesMut);

/// The bytes that a buffer holds, first to last.
pub uninterp spec fn buffered(buffer: BytesMut) -> Seq<u8>;

/// `BytesMut::new`: a buffer of length zero.
pub assume_specification[ BytesMut::new ]() -> (buffer: BytesMut)
    ensures
        buffered(buffer) == Seq::<u8>::empty(),
;

/// `BytesMut::len`: the number of bytes in the buffer.
pub assume_specification[ BytesMut::len ](buffer: &BytesMut) -> (len: usize)
    ensures
        len == buffered(*buffer).len(),
;

/// `BytesMut::is_empty`: whether the length is zero.
pub assume_specification[ BytesMut::is_empty ](buffer: &BytesMut) -> (empty: bool)
    ensures
        empty == (buffered(*buffer).len() == 0),
;

/// `BytesMut::split_to`: the bytes before `at` leave the buffer and are
/// returned; the bytes from `at` on stay. It panics where `at` is beyond
/// the length.
pub assume_specification[ BytesMut::split_to ](buffer: &mut BytesMut, at: usize) -> (front:
    BytesMut)
    requires
        at <= buffered(*old(buffer)).len(),
    ensures
        buffered(front) == buffered(*old(buffer)).subrange(0, at as int),
        buffered(*final(buffer)) == buffered(*old(buffer)).subrange(
            at as int,
            buffered(*old(buffer)).len() as int,
        ),
;

/// `AsRef<[u8]>` of `BytesMut`: the bytes of the buffer as a slice.
pub assume_specification[ <BytesMut as AsRef<[u8]>>::as_ref ](buffer: &BytesMut) -> (bytes: &[u8])
    ensures
        bytes@ == buffered(*buffer),
;

/// `Extend<&u8>` of `BytesMut`: the bytes are put behind those that the
/// buffer holds, which grows as needed. Growing panics where the new
/// length would not fit in `usize`.
#[verifier::external_body]
pub(crate) fn extend(buffer: &mut BytesMut, bytes: &Vec<u8>)
    requires
        buffered(*old(buffer)).len() + bytes@.len() <= usize::MAX,
    ensures
        buffered(*final(buffer)) == buffered(*old(buffer)) + bytes@,
{
    buffer.extend(bytes.iter())
}

} // verus!
