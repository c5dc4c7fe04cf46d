//! What a message type provides to be carried between actors.
use crate::error::SerError;
use crate::wire::{be64, put_u64_be};
use vstd::prelude::*;

verus! {

/// A message type that can be carried over the wire: it names its format with a
/// numeric tag, states how many bytes it writes, and writes them.
pub trait Serialisable {
    /// The tag that identifies this type's format.
    spec fn spec_serid(&self) -> u64;

    /// The declared encoded length; `None` means the value cannot be serialised.
    spec fn spec_size_hint(&self) -> Option<usize>;

    /// Whether writing this value succeeds.
    spec fn spec_serialisable(&self) -> bool;

    /// The bytes that this value writes.
    spec fn wire_bytes(&self) -> Seq<u8>;

    fn serid(&self) -> (r: u64)
        ensures
            r == self.spec_serid(),
    ;

    fn size_hint(&self) -> (r: Option<usize>)
        ensures
            r == self.spec_size_hint(),
    ;

    /// Appends this value's bytes to `buf`.
    fn serialise(&self, buf: &mut Vec<u8>) -> (r: Result<(), SerError>)
        ensures
            r is Ok <==> self.spec_serialisable(),
            r is Ok ==> final(buf)@ == old(buf)@ + self.wire_bytes(),
    ;
}

/// The tag of an unsigned 64-bit integer's format.
pub const U64_SER_ID: u64 = 6;

/// The tag of an actor path's format.
pub const ACTOR_PATH_SER_ID: u64 = 4;

/// An integer is written as its eight big-endian bytes.
impl Serialisable for u64 {
    open spec fn spec_serid(&self) -> u64 {
        U64_SER_ID
    }

    open spec fn spec_size_hint(&self) -> Option<usize> {
        Some(8)
    }

    open spec fn spec_serialisable(&self) -> bool {
        true
    }

    open spec fn wire_bytes(&self) -> Seq<u8> {
        be64(*self)
    }

    fn serid(&self) -> (r: u64) {
        U64_SER_ID
    }

    fn size_hint(&self) -> (r: Option<usize>) {
        Some(8)
    }

    fn serialise(&self, buf: &mut Vec<u8>) -> (r: Result<(), SerError>) {
        put_u64_be(buf, *self);
        Ok(())
    }
}

/// The dual of [`Serialisable`]: reads a value of type `T` from the bytes of a payload.
pub trait Deserialiser<T>: Sized {
    /// The value that `buf` encodes, or `None` where it encodes none.
    spec fn spec_deserialise(buf: Seq<u8>) -> Option<T>;

    fn deserialise(buf: &[u8]) -> (r: Result<T, SerError>)
        ensures
            match Self::spec_deserialise(buf@) {
                Some(v) => r == Ok::<T, SerError>(v),
                None => r is Err,
            },
    ;
}

} // verus!
