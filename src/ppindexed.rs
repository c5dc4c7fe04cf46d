//! Messages of a ping-pong exchange that carry an index as eight big-endian bytes.
use crate::codec::{Deserialiser, Serialisable};
use crate::error::SerError;
use crate::wire::{be64, be64_value, get_u64_be, put_u64_be};
use vstd::prelude::*;

verus! {

/// The request of a ping-pong exchange, numbered.
#[derive(Debug, Clone, Copy, PartialEq, Eq, Structural)]
pub struct Ping {
    pub index: u64,
}

/// The reply of a ping-pong exchange, numbered.
#[derive(Debug, Clone, Copy, PartialEq, Eq, Structural)]
pub struct Pong {
    pub index: u64,
}

impl Ping {
    pub const SER_ID: u64 = 42;

    pub fn new(index: u64) -> (r: Ping)
        ensures
            r.index == index,
    {
        Ping { index }
    }
}

impl Pong {
    pub const SER_ID: u64 = 43;

    pub fn new(index: u64) -> (r: Pong)
        ensures
            r.index == index,
    {
        Pong { index }
    }
}

impl Serialisable for Ping {
    open spec fn spec_serid(&self) -> u64 {
        42
    }

    open spec fn spec_size_hint(&self) -> Option<usize> {
        Some(8)
    }

    open spec fn spec_serialisable(&self) -> bool {
        true
    }

    open spec fn wire_bytes(&self) -> Seq<u8> {
        be64(self.index)
    }

    fn serid(&self) -> (r: u64) {
        Ping::SER_ID
    }

    fn size_hint(&self) -> (r: Option<usize>) {
        Some(8)
    }

    fn serialise(&self, buf: &mut Vec<u8>) -> (r: Result<(), SerError>) {
        put_u64_be(buf, self.index);
        Ok(())
    }
}

impl Deserialiser<Ping> for Ping {
    open spec fn spec_deserialise(buf: Seq<u8>) -> Option<Ping> {
        if buf.len() >= 8 {
            Some(Ping { index: be64_value(buf.subrange(0, 8)) })
        } else {
            None
        }
    }

    fn deserialise(buf: &[u8]) -> (r: Result<Ping, SerError>) {
        if buf.len() < 8 {
            return Err(SerError::InvalidData("not enough bytes for an index".to_string()));
        }
        Ok(Ping::new(get_u64_be(buf, 0)))
    }
}

impl Serialisable for Pong {
    open spec fn spec_serid(&self) -> u64 {
        43
    }

    open spec fn spec_size_hint(&self) -> Option<usize> {
        Some(8)
    }

    open spec fn spec_serialisable(&self) -> bool {
        true
    }

    open spec fn wire_bytes(&self) -> Seq<u8> {
        be64(self.index)
    }

    fn serid(&self) -> (r: u64) {
        Pong::SER_ID
    }

    fn size_hint(&self) -> (r: Option<usize>) {
        Some(8)
    }

    fn serialise(&self, buf: &mut Vec<u8>) -> (r: Result<(), SerError>) {
        put_u64_be(buf, self.index);
        Ok(())
    }
}

impl Deserialiser<Pong> for Pong {
    open spec fn spec_deserialise(buf: Seq<u8>) -> Option<Pong> {
        if buf.len() >= 8 {
            Some(Pong { index: be64_value(buf.subrange(0, 8)) })
        } else {
            None
        }
    }

    fn deserialise(buf: &[u8]) -> (r: Result<Pong, SerError>) {
        if buf.len() < 8 {
            return Err(SerError::InvalidData("not enough bytes for an index".to_string()));
        }
        Ok(Pong::new(get_u64_be(buf, 0)))
    }
}

} // verus!
