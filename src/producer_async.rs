//! The non-blocking publish path.
use vstd::prelude::*;

use crate::client::{create_async_producer, error_text, AsyncProducerHandle};
use crate::config::KafkaConfig;
use crate::error::ClientError;
use crate::settings::async_producer_config;

verus! {

/// How long a caller waits for the delivery of one message.
pub const DELIVERY_WAIT_MS: u64 = 1000;

/// The partition key of every record that the non-blocking path publishes.
pub const ASYNC_SEND_KEY: &'static str = "";

/// Where the broker stored an acknowledged message.
#[derive(Debug, Clone, Copy, PartialEq, Eq)]
pub struct DeliveryReport {
    pub partition: i32,
    pub offset: i64,
}

/// A producer whose sends return a deferred delivery result.
pub struct KafkaProducerAsync {
    /// The connection; awaiting a delivery happens on it.
    pub producer: AsyncProducerHandle,
    /// The topic every message goes to.
    pub topic: String,
}

/// Whether `r` is what a send resolves to, given the broker's answer: the
/// partition and offset, or a delivery error with the transport's description.
/// An acknowledgment without a valid offset is a delivery error too.
pub open spec fn delivery_spec(status: Result<(i32, i64), String>, r: Result<
    DeliveryReport,
    ClientError,
>) -> bool {
    match status {
        Ok((partition, offset)) => if offset >= 0 {
            r == Ok::<DeliveryReport, ClientError>(DeliveryReport { partition, offset })
        } else {
            r matches Err(ClientError::Delivery(d)) && d@ == "acknowledged without an offset"@
        },
        Err(d) => r matches Err(ClientError::Delivery(e)) && e@ == d@,
    }
}

impl KafkaProducerAsync {
    /// Connects with the non-blocking producer's settings (a 5000 ms delivery
    /// timeout) and binds to the configured topic.
    pub fn new(config: &KafkaConfig) -> (r: Result<KafkaProducerAsync, ClientError>)
        ensures
            r matches Ok(p) ==> p.topic@ == config.topic@,
            r matches Err(e) ==> e is Connection,
    {
        let settings = async_producer_config(config);
        match create_async_producer(&settings) {
            Ok(producer) => Ok(KafkaProducerAsync { producer, topic: config.topic.clone() }),
            Err(e) => Err(ClientError::Connection(error_text(&e))),
        }
    }

    /// Turns the broker's answer to one send into the send's result.
    pub fn delivery_result(status: Result<(i32, i64), String>) -> (r: Result<
        DeliveryReport,
        ClientError,
    >)
        ensures
            delivery_spec(status, r),
    {
        match status {
            Ok((partition, offset)) => if offset >= 0 {
                Ok(DeliveryReport { partition, offset })
            } else {
                Err(ClientError::Delivery("acknowledged without an offset".to_owned()))
            },
            Err(d) => Err(ClientError::Delivery(d)),
        }
    }
}

} // verus!
