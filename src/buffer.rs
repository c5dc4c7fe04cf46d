//! Immutable shared byte buffers, as the `bytes` crate provides them.
use bytes::Bytes;
use vstd::prelude::*;

verus! {

#[verifier::external_type_specification]
#[verifier::external_body]
pub struct ExBytes(Bytes);

/// The bytes that an immutable shared buffer holds.
pub uninterp spec fn bytes_view(b: Bytes) -> Seq<u8>;

/// Relies on `Bytes::from(Vec<u8>)`: takes over the vector's bytes, in order, without copying.
#[verifier::external_body]
pub(crate) fn freeze(v: Vec<u8>) -> (r: Bytes)
    ensures
        bytes_view(r) == v@,
{
    Bytes::from(v)
}

/// Relies on `<Bytes as AsRef<[u8]>>::as_ref`: a view of the buffer's bytes.
#[verifier::external_body]
pub(crate) fn bytes_as_slice(b: &Bytes) -> (r: &[u8])
    ensures
        r@ == bytes_view(*b),
{
    b.as_ref()
}

/// Relies on `Bytes::slice`: a shared view of the bytes from `start` to the end,
/// which panics only when `start` exceeds the length.
#[verifier::external_body]
pub(crate) fn bytes_tail(b: &Bytes, start: usize) -> (r: Bytes)
    requires
        start <= bytes_view(*b).len(),
    ensures
        bytes_view(r) == bytes_view(*b).subrange(start as int, bytes_view(*b).len() as int),
{
    b.slice(start..)
}

} // verus!
