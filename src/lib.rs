//! Addressing and wire encoding for messages exchanged between actors.

pub mod buffer;
pub mod codec;
pub mod envelope;
pub mod error;
pub mod helpers;
pub mod laws;
pub mod path;
pub mod ppindexed;
pub mod ppstatic;
pub mod wire;
