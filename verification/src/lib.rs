//! A verified model of a concurrent fetch-relay pipeline.
//!
//! The pipeline drains a queue of URLs, fetches each URL's content and
//! relays the bytes to a storage endpoint with a PUT request. This crate
//! holds the verified core: the transfer state machine with its outcome
//! classification, the destination-name derivation, the credential header,
//! the bounded channel that couples the queue pump to the worker pool, and
//! the token-bucket admission limiter.

pub mod auth;
pub mod channel;
pub mod dest;
pub mod limiter;
pub mod pump;
pub mod transfer;
