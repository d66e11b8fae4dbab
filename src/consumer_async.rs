//! The non-blocking receive path.
use vstd::prelude::*;

use crate::client::{
    commit_async,
    create_async_consumer,
    error_text,
    subscribe_async,
    AsyncConsumerHandle,
    Record,
};
use crate::config::{has_nul, KafkaConfig};
use crate::consumer_sync::{commit_request, committable, next_position, topic_list};
use crate::error::ClientError;
use crate::payload::{decode_payload, payload_bytes, payload_of, Payload};
use crate::settings::consumer_config;

verus! {

/// What the streaming consumer did with one received record.
#[derive(Debug, Clone, PartialEq, Eq)]
pub struct StreamOutcome {
    pub partition: i32,
    pub offset: i64,
    pub payload: Payload,
    /// The position whose commit was dispatched, if one was.
    pub committed: Option<i64>,
    /// Why the commit could not be dispatched, if it could not. A commit that
    /// was dispatched and fails later is not seen here.
    pub commit_error: Option<String>,
}

/// The outcome for the record at `offset`, given the answer to dispatching
/// the commit of its next position.
pub fn stream_outcome(partition: i32, offset: i64, payload: Payload, dispatch: Result<
    (),
    String,
>) -> (r: StreamOutcome)
    requires
        0 <= offset < i64::MAX,
    ensures
        r.partition == partition,
        r.offset == offset,
        r.payload == payload,
        dispatch is Ok ==> r.committed == Some(next_position(offset as int) as i64)
            && r.commit_error is None,
        dispatch matches Err(d) ==> r.committed is None && (r.commit_error matches Some(e)
            && e@ == d@),
{
    match dispatch {
        Ok(()) => StreamOutcome {
            partition,
            offset,
            payload,
            committed: Some(offset + 1),
            commit_error: None,
        },
        Err(d) => StreamOutcome { partition, offset, payload, committed: None, commit_error: Some(d) },
    }
}

/// A consumer that takes records from a stream as they arrive and commits each
/// without waiting for the broker.
pub struct KafkaConsumerAsync {
    /// The connection; the stream of records is taken from it.
    pub consumer: AsyncConsumerHandle,
    /// The subscribed topic.
    pub topic: String,
    /// The consumer group it joined.
    pub group_id: String,
    /// The topic list the connection subscribed to.
    pub subscription: Vec<String>,
}

impl KafkaConsumerAsync {
    /// Connects with the consumer settings (its group, earliest offset,
    /// no automatic commit) on the Tokio runtime `rt`, which drives the
    /// stream, and subscribes to exactly the configured topic; a topic name
    /// with a NUL character is a connection error.
    pub fn new(config: &KafkaConfig, rt: &tokio::runtime::Handle) -> (r: Result<
        KafkaConsumerAsync,
        ClientError,
    >)
        ensures
            r matches Ok(c) ==> c.topic@ == config.topic@ && c.group_id@ == config.group_id@
                && c.subscription@.len() == 1 && c.subscription@[0]@ == config.topic@,
            r matches Err(e) ==> e is Connection,
            config.topic@.contains('\0') ==> r is Err,
    {
        if has_nul(config.topic.as_str()) {
            return Err(ClientError::Connection("topic name holds a NUL character".to_owned()));
        }
        let settings = consumer_config(config);
        let consumer = match create_async_consumer(&settings, rt) {
            Ok(c) => c,
            Err(e) => {
                return Err(ClientError::Connection(error_text(&e)));
            },
        };
        let subscription = topic_list(&config.topic);
        match subscribe_async(&consumer, &subscription) {
            Ok(()) => Ok(
                KafkaConsumerAsync {
                    consumer,
                    topic: config.topic.clone(),
                    group_id: config.group_id.clone(),
                    subscription,
                },
            ),
            Err(e) => Err(ClientError::Connection(error_text(&e))),
        }
    }

    /// Handles one record of the stream: decodes its payload, then dispatches
    /// the commit of `commit_request(record)` and returns without waiting for
    /// it; the outcome is `stream_outcome` of the dispatch's answer. A record
    /// that cannot be committed is reported with a commit error. Nothing here
    /// ends the stream.
    pub fn process(&self, record: &Record) -> (r: StreamOutcome)
        ensures
            r.partition == record.partition,
            r.offset == record.offset,
            payload_of(payload_bytes(record.payload), r.payload),
            r.commit_error is None ==> committable(*record) && r.committed == Some(
                next_position(record.offset as int) as i64,
            ),
            r.commit_error is Some ==> r.committed is None,
            !committable(*record) ==> r.commit_error is Some,
    {
        let payload = decode_payload(&record.payload);
        match commit_request(record) {
            None => StreamOutcome {
                partition: record.partition,
                offset: record.offset,
                payload,
                committed: None,
                commit_error: Some("record cannot be committed".to_owned()),
            },
            Some(request) => {
                let dispatch = match commit_async(&self.consumer, &request) {
                    Ok(()) => Ok(()),
                    Err(e) => Err(error_text(&e)),
                };
                stream_outcome(record.partition, record.offset, payload, dispatch)
            },
        }
    }
}

} // verus!
