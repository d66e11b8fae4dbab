//! The broker transport, reached through the rdkafka crate. The functions and
//! connection types here are trusted: each contract states what rdkafka's
//! source shows of the call.
use vstd::prelude::*;

use rdkafka::consumer::Consumer;
use rdkafka::producer::Producer;

use crate::consumer_sync::CommitRequest;
use crate::producer_sync::OutgoingRecord;
use crate::settings::SettingMap;

verus! {

/// rdkafka's client configuration, a map from setting names to values.
#[verifier::external_type_specification]
#[verifier::external_body]
pub struct ExClientConfig(rdkafka::ClientConfig);

/// A handle to a Tokio runtime.
#[verifier::external_type_specification]
#[verifier::external_body]
pub struct ExHandle(tokio::runtime::Handle);

/// rdkafka's error type, carried through to its description.
#[verifier::external_type_specification]
#[verifier::external_body]
pub struct ExKafkaError(rdkafka::error::KafkaError);

// rdkafka's producers and consumers take context parameters whose trait
// bounds Verus cannot read, so each connection is held, opaque, in a struct of
// this crate.
/// A blocking producer connection (rdkafka's `BaseProducer`).
#[verifier::external_body]
pub struct SyncProducerHandle {
    pub inner: rdkafka::producer::BaseProducer,
}

/// A non-blocking producer connection (rdkafka's `FutureProducer`).
#[verifier::external_body]
pub struct AsyncProducerHandle {
    pub inner: rdkafka::producer::FutureProducer,
}

/// A blocking consumer connection (rdkafka's `BaseConsumer`).
#[verifier::external_body]
pub struct SyncConsumerHandle {
    pub inner: rdkafka::consumer::BaseConsumer,
}

/// A streaming consumer connection (rdkafka's `StreamConsumer`).
#[verifier::external_body]
pub struct AsyncConsumerHandle {
    pub inner: rdkafka::consumer::StreamConsumer,
}

/// A record as a consumer received it.
#[derive(Debug, Clone)]
pub struct Record {
    pub topic: String,
    pub partition: i32,
    pub offset: i64,
    pub payload: Option<Vec<u8>>,
}

/// The settings that a client configuration holds, key to value.
pub uninterp spec fn client_settings(c: rdkafka::ClientConfig) -> SettingMap;

/// Relies on `rdkafka::ClientConfig::new`: a configuration with no settings.
#[verifier::external_body]
pub(crate) fn new_client_config() -> (r: rdkafka::ClientConfig)
    ensures
        client_settings(r) == SettingMap::empty(),
{
    rdkafka::ClientConfig::new()
}

/// Relies on `rdkafka::ClientConfig::set`: inserts `key` with `value`, replacing
/// an earlier value of that key.
#[verifier::external_body]
pub(crate) fn set_setting(c: &mut rdkafka::ClientConfig, key: &str, value: &str)
    ensures
        client_settings(*final(c)) == client_settings(*old(c)).insert(key@, value@),
{
    c.set(key, value);
}

/// Relies on `rdkafka::ClientConfig::create` for a `BaseProducer`, which may
/// fail on any configuration.
#[verifier::external_body]
pub(crate) fn create_sync_producer(c: &rdkafka::ClientConfig) -> (r: Result<
    SyncProducerHandle,
    rdkafka::error::KafkaError,
>) {
    c.create().map(|inner| SyncProducerHandle { inner })
}

/// Relies on `rdkafka::ClientConfig::create` for a `FutureProducer`, which may
/// fail on any configuration.
#[verifier::external_body]
pub(crate) fn create_async_producer(c: &rdkafka::ClientConfig) -> (r: Result<
    AsyncProducerHandle,
    rdkafka::error::KafkaError,
>) {
    c.create().map(|inner| AsyncProducerHandle { inner })
}

/// Relies on `rdkafka::ClientConfig::create` for a `BaseConsumer`, which may
/// fail on any configuration.
#[verifier::external_body]
pub(crate) fn create_sync_consumer(c: &rdkafka::ClientConfig) -> (r: Result<
    SyncConsumerHandle,
    rdkafka::error::KafkaError,
>) {
    c.create().map(|inner| SyncConsumerHandle { inner })
}

/// Relies on `rdkafka::ClientConfig::create` for a `StreamConsumer`, which may
/// fail on any configuration. It spawns a task with `tokio::spawn`, so the
/// runtime `rt` is entered (`Handle::enter`) around it.
#[verifier::external_body]
pub(crate) fn create_async_consumer(c: &rdkafka::ClientConfig, rt: &tokio::runtime::Handle) -> (r:
    Result<AsyncConsumerHandle, rdkafka::error::KafkaError>) {
    let _entered = rt.enter();
    c.create().map(|inner| AsyncConsumerHandle { inner })
}

/// Relies on `BaseConsumer::subscribe`: subscribes to the topics given. It
/// panics on a topic name that holds a NUL character.
#[verifier::external_body]
pub(crate) fn subscribe_sync(h: &SyncConsumerHandle, topics: &Vec<String>) -> (r: Result<
    (),
    rdkafka::error::KafkaError,
>)
    requires
        forall|i: int| 0 <= i < topics@.len() ==> !(#[trigger] topics@[i])@.contains('\0'),
{
    let names: Vec<&str> = topics.iter().map(|t| t.as_str()).collect();
    h.inner.subscribe(&names)
}

/// Relies on `StreamConsumer::subscribe`: subscribes to the topics given. It
/// panics on a topic name that holds a NUL character.
#[verifier::external_body]
pub(crate) fn subscribe_async(h: &AsyncConsumerHandle, topics: &Vec<String>) -> (r: Result<
    (),
    rdkafka::error::KafkaError,
>)
    requires
        forall|i: int| 0 <= i < topics@.len() ==> !(#[trigger] topics@[i])@.contains('\0'),
{
    let names: Vec<&str> = topics.iter().map(|t| t.as_str()).collect();
    h.inner.subscribe(&names)
}

/// Relies on `BaseProducer::send`: enqueues a record with this topic, payload
/// and key into the local buffer, or fails when the buffer refuses it.
#[verifier::external_body]
pub(crate) fn enqueue(h: &SyncProducerHandle, record: &OutgoingRecord) -> (r: Result<
    (),
    rdkafka::error::KafkaError,
>) {
    let base = rdkafka::producer::BaseRecord::to(&record.topic);
    h.inner.send(base.payload(&record.payload).key(&record.key)).map_err(|(e, _)| e)
}

/// Relies on `BaseProducer::flush`: waits up to `timeout_ms` for the buffer to
/// reach the broker.
#[verifier::external_body]
pub(crate) fn flush(h: &SyncProducerHandle, timeout_ms: u64) -> (r: Result<
    (),
    rdkafka::error::KafkaError,
>) {
    h.inner.flush(std::time::Duration::from_millis(timeout_ms))
}

/// Relies on `BaseConsumer::poll`: blocks up to `timeout_ms` for the next
/// record; `None` when none came. A received topic name is read from a C
/// string (`Message::topic`), so it holds no NUL character.
#[verifier::external_body]
pub(crate) fn poll(h: &SyncConsumerHandle, timeout_ms: u64) -> (r: Option<
    Result<Record, rdkafka::error::KafkaError>,
>)
    ensures
        r matches Some(Ok(rec)) ==> !rec.topic@.contains('\0'),
{
    h.inner.poll(std::time::Duration::from_millis(timeout_ms)).map(
        |polled|
            polled.map(
                |m|
                    Record {
                        topic: rdkafka::Message::topic(&m).to_owned(),
                        partition: rdkafka::Message::partition(&m),
                        offset: rdkafka::Message::offset(&m),
                        payload: rdkafka::Message::payload(&m).map(|p| p.to_vec()),
                    },
            ),
    )
}

/// Relies on `BaseConsumer::commit` with `CommitMode::Sync`: records the
/// request's position as the group's next offset in its topic and partition,
/// waiting for the broker to acknowledge it. Building the partition list
/// panics on a topic name that holds a NUL character.
#[verifier::external_body]
pub(crate) fn commit_sync(h: &SyncConsumerHandle, req: &CommitRequest) -> (r: Result<
    (),
    rdkafka::error::KafkaError,
>)
    requires
        !req.topic@.contains('\0'),
{
    let mut tpl = rdkafka::TopicPartitionList::new();
    tpl.add_partition_offset(&req.topic, req.partition, rdkafka::Offset::Offset(req.position))?;
    h.inner.commit(&tpl, rdkafka::consumer::CommitMode::Sync)
}

/// Relies on `StreamConsumer::commit` with `CommitMode::Async`: dispatches the
/// commit of the request's position without waiting for the broker. Building
/// the partition list panics on a topic name that holds a NUL character.
#[verifier::external_body]
pub(crate) fn commit_async(h: &AsyncConsumerHandle, req: &CommitRequest) -> (r: Result<
    (),
    rdkafka::error::KafkaError,
>)
    requires
        !req.topic@.contains('\0'),
{
    let mut tpl = rdkafka::TopicPartitionList::new();
    tpl.add_partition_offset(&req.topic, req.partition, rdkafka::Offset::Offset(req.position))?;
    h.inner.commit(&tpl, rdkafka::consumer::CommitMode::Async)
}

/// Relies on `KafkaError`'s `Display`: the error's description.
#[verifier::external_body]
pub(crate) fn error_text(e: &rdkafka::error::KafkaError) -> (r: String) {
    e.to_string()
}

} // verus!

