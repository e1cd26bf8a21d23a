//! The growable byte buffer in which a token's binary form is assembled.

use vstd::prelude::*;

verus! {

#[verifier::external_type_specification]
#[verifier::external_body]
pub struct ExBytesMut(bytes::BytesMut);

/// The bytes that a buffer holds, in order.
pub uninterp spec fn contents(held: bytes::BytesMut) -> Seq<u8>;

/// `BytesMut::new` gives an empty buffer.
pub assume_specification[ bytes::BytesMut::new ]() -> (made: bytes::BytesMut)
    ensures
        contents(made) == Seq::<u8>::empty(),
;

/// `BytesMut::extend_from_slice` appends the given bytes to those the buffer
/// holds. Lengths whose sum would not fit in `usize` are left out.
pub assume_specification[ bytes::BytesMut::extend_from_slice ](
    target: &mut bytes::BytesMut,
    extend: &[u8],
)
    requires
        contents(*old(target)).len() + extend@.len() <= usize::MAX,
    ensures
        contents(*final(target)) == contents(*old(target)) + extend@,
;

/// Copies what the buffer holds into a vector, through the buffer's view as a
/// slice and the slice's `to_vec`.
#[verifier::external_body]
pub(crate) fn to_vec(source: &bytes::BytesMut) -> (copied: Vec<u8>)
    ensures
        copied@ == contents(*source),
{
    source.to_vec()
}

} // verus!
