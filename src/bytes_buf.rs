use vstd::prelude::*;
use bytes::BytesMut;

verus! {

#[verifier::external_type_specification]
#[verifier::external_body]
pub struct ExBytesMut(bytes::BytesMut);

/// The bytes a `BytesMut` holds, from its start to its length.
pub uninterp spec fn bytes_contents(b: BytesMut) -> Seq<u8>;

/// Relies on `BytesMut::new`: a buffer of length zero.
#[verifier::external_body]
pub(crate) fn empty_buffer() -> (r: BytesMut)
    ensures
        bytes_contents(r) == Seq::<u8>::empty(),
{
    BytesMut::new()
}

/// Relies on `BytesMut::extend_from_slice`: the slice is appended after the
/// current contents. It reserves room through `Vec`, which panics past
/// `isize::MAX` bytes; the bound keeps callers below that. The buffers of this
/// crate start empty and are only ever appended to, so no bytes were split off
/// their front and their `Vec` holds exactly their contents.
#[verifier::external_body]
pub(crate) fn append_bytes(b: &mut BytesMut, s: &[u8])
    requires
        bytes_contents(*old(b)).len() + s@.len() <= isize::MAX,
    ensures
        bytes_contents(*final(b)) == bytes_contents(*old(b)) + s@,
{
    b.extend_from_slice(s)
}

/// Relies on `BytesMut::len`: the number of bytes held.
#[verifier::external_body]
pub(crate) fn buffer_len(b: &BytesMut) -> (r: usize)
    ensures
        r as nat == bytes_contents(*b).len(),
{
    b.len()
}

/// Relies on `BytesMut`'s `Deref` to `[u8]` (its contents, up to its length),
/// copied into a `Vec`.
#[verifier::external_body]
pub(crate) fn buffer_to_vec(b: &BytesMut) -> (r: Vec<u8>)
    ensures
        r@ == bytes_contents(*b),
{
    b.to_vec()
}

} // verus!
