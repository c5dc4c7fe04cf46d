//! Addressed, encoded messages.
use crate::buffer::bytes_view;
use crate::path::{ActorPath, PathModel};
use bytes::Bytes;
use vstd::prelude::*;

verus! {

/// A message addressed from one actor to another, its payload encoded.
#[derive(Debug, PartialEq, Eq)]
pub enum ReceiveEnvelope {
    Msg { src: ActorPath, dst: ActorPath, ser_id: u64, data: Bytes },
}

/// What is delivered to an actor.
#[derive(Debug, PartialEq, Eq)]
pub enum MsgEnvelope {
    Receive(ReceiveEnvelope),
}

impl ReceiveEnvelope {
    /// Whether this envelope holds the given source, destination, tag and payload.
    pub open spec fn holds(self, src: PathModel, dst: PathModel, ser_id: u64, data: Seq<u8>) -> bool {
        match self {
            ReceiveEnvelope::Msg { src: s, dst: d, ser_id: id, data: b } => s@ == src && d@ == dst
                && id == ser_id && bytes_view(b) == data,
        }
    }
}

} // verus!
