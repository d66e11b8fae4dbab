//! A client for a partitioned, topic-based message broker, with a blocking and a
//! non-blocking way to publish and to consume, authenticated by SASL/PLAIN.
//!
//! The decisions of each path (which settings a client gets, how a delivery
//! result or a polled record is turned into an outcome, which offset is
//! committed) are verified; the broker transport is reached through the
//! trusted items of `client`.
pub mod client;
pub mod config;
pub mod consumer_async;
pub mod consumer_sync;
pub mod error;
pub mod laws;
pub mod payload;
pub mod producer_async;
pub mod producer_sync;
pub mod settings;
