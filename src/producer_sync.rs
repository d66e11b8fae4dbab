//! The blocking publish path.
use vstd::prelude::*;

use crate::client::{create_sync_producer, enqueue, error_text, flush, SyncProducerHandle};
use crate::config::KafkaConfig;
use crate::error::ClientError;
use crate::settings::sync_producer_config;

verus! {

/// How long `send` lets the buffer flush to the broker.
pub const FLUSH_TIMEOUT_MS: u64 = 1000;

/// The partition key of every record that `send` publishes.
pub const SEND_KEY: &'static str = "key";

/// A record on its way to the local send buffer.
#[derive(Debug, Clone, PartialEq, Eq)]
pub struct OutgoingRecord {
    pub topic: String,
    pub payload: String,
    pub key: String,
}

/// The topic, payload and key of the record that a producer bound to `topic`
/// hands to the buffer for `value`.
pub open spec fn outgoing_spec(topic: Seq<char>, value: Seq<char>) -> (Seq<char>, Seq<char>, Seq<
    char,
>) {
    (topic, value, SEND_KEY@)
}

/// A producer that hands each message to the local buffer and flushes it.
pub struct KafkaProducerSync {
    /// The connection.
    pub producer: SyncProducerHandle,
    /// The topic every message goes to.
    pub topic: String,
}

/// Whether `r` is the result of `send` once the buffer has answered:
/// success when it took the message, a send error with the buffer's
/// description otherwise.
pub open spec fn send_spec(enqueued: Result<(), String>, r: Result<(), ClientError>) -> bool {
    match enqueued {
        Ok(()) => r is Ok,
        Err(d) => r matches Err(ClientError::Send(e)) && e@ == d@,
    }
}

/// Maps the buffer's answer to the result of `send`.
pub fn send_outcome(enqueued: Result<(), String>) -> (r: Result<(), ClientError>)
    ensures
        send_spec(enqueued, r),
{
    match enqueued {
        Ok(()) => Ok(()),
        Err(d) => Err(ClientError::Send(d)),
    }
}

impl KafkaProducerSync {
    /// Connects with the blocking producer's settings and binds to the
    /// configured topic; a transport that cannot be set up is a connection error.
    pub fn new(config: &KafkaConfig) -> (r: Result<KafkaProducerSync, ClientError>)
        ensures
            r matches Ok(p) ==> p.topic@ == config.topic@,
            r matches Err(e) ==> e is Connection,
    {
        let settings = sync_producer_config(config);
        match create_sync_producer(&settings) {
            Ok(producer) => Ok(KafkaProducerSync { producer, topic: config.topic.clone() }),
            Err(e) => Err(ClientError::Connection(error_text(&e))),
        }
    }

    /// The record that `send(value)` hands to the buffer: this producer's
    /// topic, `value` as payload and `SEND_KEY` as key.
    pub fn outgoing(&self, value: &str) -> (r: OutgoingRecord)
        ensures
            r.topic@ == self.topic@,
            r.payload@ == value@,
            r.key@ == SEND_KEY@,
            (r.topic@, r.payload@, r.key@) == outgoing_spec(self.topic@, value@),
    {
        OutgoingRecord {
            topic: self.topic.clone(),
            payload: value.to_owned(),
            key: SEND_KEY.to_owned(),
        }
    }

    /// Enqueues the record `outgoing(value)`, then flushes the buffer for
    /// up to `FLUSH_TIMEOUT_MS`. Fails only when the buffer refuses the
    /// message: a failed flush is not reported, and nothing is retried.
    pub fn send(&self, value: &str) -> (r: Result<(), ClientError>)
        ensures
            r is Ok || (r matches Err(e) && e is Send),
    {
        let record = self.outgoing(value);
        let enqueued = match enqueue(&self.producer, &record) {
            Ok(()) => Ok(()),
            Err(e) => Err(error_text(&e)),
        };
        let r = send_outcome(enqueued);
        if r.is_ok() {
            let _ = flush(&self.producer, FLUSH_TIMEOUT_MS);
        }
        r
    }
}

} // verus!
