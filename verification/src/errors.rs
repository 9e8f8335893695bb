//! The failure taxonomy of the pipeline. Every recoverable failure a tick or
//! a connection can meet is one of these; all of them are logged by the
//! caller and never abort the process.

use vstd::prelude::*;

verus! {

/// Why a single pipeline step failed.
#[derive(Clone, Copy, Debug, PartialEq, Eq, Structural)]
pub enum FeedError {
    /// The network call to a feed could not complete.
    TransportError,
    /// The feed answered with an unexpected shape.
    DecodeError,
    /// A query or insert against the store failed.
    StoreError,
    /// A timestamp outside the representable instant range.
    InvalidTimestamp,
    /// A send to a subscriber failed.
    DeliveryError,
}

/// The successful outcomes of a record operation against the store.
#[derive(Clone, Copy, Debug, PartialEq, Eq, Structural)]
pub enum Ack {
    /// A new row was written.
    Inserted,
    /// The logical key was already present; nothing was written.
    AlreadyPresent,
}

} // verus!
