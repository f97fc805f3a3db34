//! The ways in which decoding and loading fail.

use vstd::prelude::*;

verus! {

/// Why a JSON tree could not be decoded into a record.
#[derive(Debug, Clone, Copy, PartialEq, Eq, Hash, Structural)]
pub enum DecodeError {
    /// A member that the record cannot do without is absent or null.
    MissingField,
    /// The tree, or a member that is present, does not have the shape that
    /// the record expects there.
    WrongShape,
}

/// A failure of the transport that fetches records, with what it reported.
#[derive(Debug, Clone, PartialEq, Eq)]
pub struct TransportError {
    pub message: String,
}

/// A failure of an operation of this crate.
#[derive(Debug, Clone, PartialEq, Eq)]
pub enum Error {
    /// The transport did not deliver a response.
    Transport(TransportError),
    /// The response could not be decoded.
    Decode(DecodeError),
    /// The operation is declared and not available yet.
    NotImplemented,
}

} // verus!
