//! Messages of a ping-pong exchange that carry nothing but their tag.
use crate::codec::{Deserialiser, Serialisable};
use crate::error::SerError;
use vstd::prelude::*;

verus! {

/// The request of a ping-pong exchange.
#[derive(Debug, Clone, Copy, PartialEq, Eq, Structural)]
pub struct Ping;

/// The reply of a ping-pong exchange.
#[derive(Debug, Clone, Copy, PartialEq, Eq, Structural)]
pub struct Pong;

impl Ping {
    pub const SER_ID: u64 = 42;
}

impl Pong {
    pub const SER_ID: u64 = 43;
}

impl Serialisable for Ping {
    open spec fn spec_serid(&self) -> u64 {
        42
    }

    open spec fn spec_size_hint(&self) -> Option<usize> {
        Some(0)
    }

    open spec fn spec_serialisable(&self) -> bool {
        true
    }

    open spec fn wire_bytes(&self) -> Seq<u8> {
        seq![]
    }

    fn serid(&self) -> (r: u64) {
        Ping::SER_ID
    }

    fn size_hint(&self) -> (r: Option<usize>) {
        Some(0)
    }

    fn serialise(&self, buf: &mut Vec<u8>) -> (r: Result<(), SerError>) {
        assert(final(buf)@ =~= old(buf)@ + seq![]);
        Ok(())
    }
}

impl Deserialiser<Ping> for Ping {
    open spec fn spec_deserialise(buf: Seq<u8>) -> Option<Ping> {
        Some(Ping)
    }

    fn deserialise(buf: &[u8]) -> (r: Result<Ping, SerError>) {
        Ok(Ping)
    }
}

impl Serialisable for Pong {
    open spec fn spec_serid(&self) -> u64 {
        43
    }

    open spec fn spec_size_hint(&self) -> Option<usize> {
        Some(0)
    }

    open spec fn spec_serialisable(&self) -> bool {
        true
    }

    open spec fn wire_bytes(&self) -> Seq<u8> {
        seq![]
    }

    fn serid(&self) -> (r: u64) {
        Pong::SER_ID
    }

    fn size_hint(&self) -> (r: Option<usize>) {
        Some(0)
    }

    fn serialise(&self, buf: &mut Vec<u8>) -> (r: Result<(), SerError>) {
        assert(final(buf)@ =~= old(buf)@ + seq![]);
        Ok(())
    }
}

impl Deserialiser<Pong> for Pong {
    open spec fn spec_deserialise(buf: Seq<u8>) -> Option<Pong> {
        Some(Pong)
    }

    fn deserialise(buf: &[u8]) -> (r: Result<Pong, SerError>) {
        Ok(Pong)
    }
}

} // verus!
