//! Core of a feed-sampling pipeline: two external feeds (a chain height and a
//! spot price) are polled on a fixed schedule, every successful sample is
//! recorded durably exactly once per logical key, and every sample is fanned
//! out to any number of live subscribers through a bounded, lossy broadcast
//! hub. This crate holds the verified core: the store with its idempotence
//! contract, the hub with its explicit drop policy, the payload wire encoding,
//! the timestamp conversion, and the poller and connection state machines.
//! Network and database plumbing live outside the crate and hand plain values
//! in and out.

pub mod errors;
pub mod text;
pub mod clock;
pub mod payload;
pub mod store;
pub mod hub;
pub mod poller;
pub mod conn;
