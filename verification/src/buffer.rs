//! The buffers in which received bytes wait to be decoded, and into which bytes
//! are encoded.

use vstd::prelude::*;

use bytes::BytesMut;

verus! {

#[verifier::external_type_specification]
#[verifier::external_body]
pub struct ExBytesMut(BytesMut);

/// The bytes that a buffer holds.
pub uninterp spec fn contents(buffer: BytesMut) -> Seq<u8>;

/// `bytes::BytesMut::len`: the number of bytes in the buffer.
pub assume_specification[ BytesMut::len ](buffer: &BytesMut) -> (r: usize)
    ensures
        r == contents(*buffer).len(),
;

/// `bytes::BytesMut::split_to`: takes the first `at` bytes out of the buffer, which
/// keeps the others. It panics where there are not so many.
pub assume_specification[ BytesMut::split_to ](buffer: &mut BytesMut, at: usize) -> (r: BytesMut)
    requires
        at <= contents(*old(buffer)).len(),
    ensures
        contents(r) == contents(*old(buffer)).take(at as int),
        contents(*final(buffer)) == contents(*old(buffer)).skip(at as int),
;

} // verus!
