//! The settings that each component hands to the transport.
use vstd::prelude::*;

use crate::client::{client_settings, new_client_config, set_setting};
use crate::config::KafkaConfig;

verus! {

pub type SettingMap = Map<Seq<char>, Seq<char>>;

/// Endpoint and SASL/PLAIN credential over a plaintext transport: what every
/// component sets.
pub open spec fn connection_settings(cfg: KafkaConfig) -> SettingMap {
    SettingMap::empty()
        .insert("bootstrap.servers"@, cfg.broker@)
        .insert("security.protocol"@, "SASL_PLAINTEXT"@)
        .insert("sasl.mechanism"@, "PLAIN"@)
        .insert("sasl.username"@, cfg.username@)
        .insert("sasl.password"@, cfg.password@)
}

/// The blocking producer sets the connection alone.
pub open spec fn sync_producer_settings(cfg: KafkaConfig) -> SettingMap {
    connection_settings(cfg)
}

/// The non-blocking producer bounds an unacknowledged message to 5000 ms.
pub open spec fn async_producer_settings(cfg: KafkaConfig) -> SettingMap {
    connection_settings(cfg).insert("message.timeout.ms"@, "5000"@)
}

/// A consumer joins its group, starts from the earliest offset when the group
/// has committed none, and commits by hand only.
pub open spec fn consumer_settings(cfg: KafkaConfig) -> SettingMap {
    connection_settings(cfg)
        .insert("group.id"@, cfg.group_id@)
        .insert("auto.offset.reset"@, "earliest"@)
        .insert("enable.auto.commit"@, "false"@)
}

fn connection_config(cfg: &KafkaConfig) -> (r: rdkafka::ClientConfig)
    ensures
        client_settings(r) == connection_settings(*cfg),
{
    let mut c = new_client_config();
    set_setting(&mut c, "bootstrap.servers", cfg.broker.as_str());
    set_setting(&mut c, "security.protocol", "SASL_PLAINTEXT");
    set_setting(&mut c, "sasl.mechanism", "PLAIN");
    set_setting(&mut c, "sasl.username", cfg.username.as_str());
    set_setting(&mut c, "sasl.password", cfg.password.as_str());
    c
}

/// The transport configuration of the blocking producer.
pub fn sync_producer_config(cfg: &KafkaConfig) -> (r: rdkafka::ClientConfig)
    ensures
        client_settings(r) == sync_producer_settings(*cfg),
{
    connection_config(cfg)
}

/// The transport configuration of the non-blocking producer.
pub fn async_producer_config(cfg: &KafkaConfig) -> (r: rdkafka::ClientConfig)
    ensures
        client_settings(r) == async_producer_settings(*cfg),
{
    let mut c = connection_config(cfg);
    set_setting(&mut c, "message.timeout.ms", "5000");
    c
}

/// The transport configuration of either consumer.
pub fn consumer_config(cfg: &KafkaConfig) -> (r: rdkafka::ClientConfig)
    ensures
        client_settings(r) == consumer_settings(*cfg),
{
    let mut c = connection_config(cfg);
    set_setting(&mut c, "group.id", cfg.group_id.as_str());
    set_setting(&mut c, "auto.offset.reset", "earliest");
    set_setting(&mut c, "enable.auto.commit", "false");
    c
}

} // verus!
