use actix_web::web::BytesMut;
use vstd::prelude::*;

verus! {

/// The byte buffer of `actix_web::web` (the `BytesMut` of the `bytes`
/// crate), held as an opaque value.
#[verifier::external_type_specification]
#[verifier::external_body]
pub struct ExBytesMut(BytesMut);

/// The bytes that a buffer holds, first to last.
pub uninterp spec fn buffered(buffer: BytesMut) -> Seq<u8>;

/// `BytesMut::with_capacity`: the new buffer holds no byte, whatever its
/// capacity. The capacity is kept to what an allocation can have.
pub assume_specification[ BytesMut::with_capacity ](capacity: usize) -> (buffer: BytesMut)
    requires
        capacity <= isize::MAX,
    ensures
        buffered(buffer) == Seq::<u8>::empty(),
;

/// `BytesMut::len`: the number of bytes that the buffer holds.
pub assume_specification[ BytesMut::len ](buffer: &BytesMut) -> (len: usize)
    ensures
        len == buffered(*buffer).len(),
;

/// `BytesMut::extend_from_slice`: the given bytes are appended, in order,
/// after those that the buffer holds. It panics where the new length
/// overflows `usize`, which the `requires` leaves out.
pub assume_specification[ BytesMut::extend_from_slice ](buffer: &mut BytesMut, extend: &[u8])
    requires
        buffered(*old(buffer)).len() + extend@.len() <= usize::MAX,
    ensures
        buffered(*final(buffer)) == buffered(*old(buffer)) + extend@,
;

/// Turns a buffer into a vector through `From<BytesMut> for Vec<u8>`: the
/// vector holds the bytes of the buffer, in order.
#[verifier::external_body]
pub(crate) fn into_vec(buffer: BytesMut) -> (bytes: Vec<u8>)
    ensures
        bytes@ == buffered(buffer),
{
    Vec::from(buffer)
}

} // verus!
