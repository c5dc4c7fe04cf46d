//! The failures of encoding and decoding.
use vstd::prelude::*;

verus! {

/// Why an encode or a decode could not proceed.
#[derive(Debug, Clone, PartialEq, Eq)]
pub enum SerError {
    /// Malformed or insufficient input, or a value that has no encoding.
    InvalidData(String),
    /// A contract violation that prevents any encoding, such as a missing size hint.
    Unknown(String),
}

} // verus!
