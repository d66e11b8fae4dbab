use rust_kafka::client::Record;
use rust_kafka::config::KafkaConfig;
use rust_kafka::config::has_nul;
use rust_kafka::consumer_async::{stream_outcome, KafkaConsumerAsync};
use rust_kafka::consumer_sync::{
    commit_position, commit_request, plan_poll, processed_outcome, run_connected,
    run_sync_consumer, topic_list, CommitRequest, KafkaConsumerSync, PollOutcome, PollPlan,
    POLL_INTERVAL_MS,
};
use rust_kafka::error::ClientError;
use rust_kafka::payload::{decode_payload, Payload};
use rust_kafka::producer_async::{
    DeliveryReport, KafkaProducerAsync, ASYNC_SEND_KEY, DELIVERY_WAIT_MS,
};
use rust_kafka::producer_sync::{send_outcome, KafkaProducerSync, FLUSH_TIMEOUT_MS, SEND_KEY};
use rust_kafka::settings::{async_producer_config, consumer_config, sync_producer_config};

fn unreachable_config() -> KafkaConfig {
    KafkaConfig::new(
        Some("127.0.0.1:1".to_string()),
        Some("orders".to_string()),
        Some("group-7".to_string()),
        Some("alice".to_string()),
        Some("secret".to_string()),
    )
}

#[test]
fn config_falls_back_to_defaults() {
    let cfg = KafkaConfig::new(None, None, None, None, None);
    assert_eq!(cfg.broker, "localhost:9094");
    assert_eq!(cfg.topic, "kafka-rust");
    assert_eq!(cfg.group_id, "group-1");
    assert_eq!(cfg.username, "client");
    assert_eq!(cfg.password, "client-pass");
}

#[test]
fn config_keeps_given_values() {
    let cfg = KafkaConfig::new(Some("b:1".to_string()), None, Some("g".to_string()), None, None);
    assert_eq!(cfg.broker, "b:1");
    assert_eq!(cfg.topic, "kafka-rust");
    assert_eq!(cfg.group_id, "g");
    assert_eq!(cfg.username, "client");
}

#[test]
fn producer_settings_carry_credentials() {
    let cfg = unreachable_config();
    let c = sync_producer_config(&cfg);
    assert_eq!(c.get("bootstrap.servers"), Some("127.0.0.1:1"));
    assert_eq!(c.get("security.protocol"), Some("SASL_PLAINTEXT"));
    assert_eq!(c.get("sasl.mechanism"), Some("PLAIN"));
    assert_eq!(c.get("sasl.username"), Some("alice"));
    assert_eq!(c.get("sasl.password"), Some("secret"));
    assert_eq!(c.get("message.timeout.ms"), None);
    assert_eq!(c.get("group.id"), None);
}

#[test]
fn async_producer_settings_bound_delivery() {
    let c = async_producer_config(&unreachable_config());
    assert_eq!(c.get("message.timeout.ms"), Some("5000"));
    assert_eq!(c.get("bootstrap.servers"), Some("127.0.0.1:1"));
}

#[test]
fn consumer_settings_disable_auto_commit() {
    let c = consumer_config(&unreachable_config());
    assert_eq!(c.get("group.id"), Some("group-7"));
    assert_eq!(c.get("auto.offset.reset"), Some("earliest"));
    assert_eq!(c.get("enable.auto.commit"), Some("false"));
    assert_eq!(c.get("sasl.username"), Some("alice"));
}

#[test]
fn timeouts_and_keys() {
    assert_eq!(POLL_INTERVAL_MS, 500);
    assert_eq!(FLUSH_TIMEOUT_MS, 1000);
    assert_eq!(DELIVERY_WAIT_MS, 1000);
    assert_eq!(SEND_KEY, "key");
    assert_eq!(ASYNC_SEND_KEY, "");
}

#[test]
fn send_outcome_maps_buffer_refusal() {
    assert_eq!(send_outcome(Ok(())), Ok(()));
    assert_eq!(
        send_outcome(Err("queue full".to_string())),
        Err(ClientError::Send("queue full".to_string()))
    );
}

#[test]
fn delivery_with_offset_is_a_report() {
    assert_eq!(
        KafkaProducerAsync::delivery_result(Ok((2, 17))),
        Ok(DeliveryReport { partition: 2, offset: 17 })
    );
    assert_eq!(
        KafkaProducerAsync::delivery_result(Ok((0, 0))),
        Ok(DeliveryReport { partition: 0, offset: 0 })
    );
}

#[test]
fn delivery_without_offset_is_an_error() {
    assert_eq!(
        KafkaProducerAsync::delivery_result(Ok((0, -1))),
        Err(ClientError::Delivery("acknowledged without an offset".to_string()))
    );
    assert_eq!(
        KafkaProducerAsync::delivery_result(Err("message timed out".to_string())),
        Err(ClientError::Delivery("message timed out".to_string()))
    );
}

#[test]
fn commit_position_is_next_offset() {
    assert_eq!(commit_position(0), Some(1));
    assert_eq!(commit_position(41), Some(42));
    assert_eq!(commit_position(-1), None);
    assert_eq!(commit_position(i64::MAX), None);
    assert_eq!(commit_position(i64::MAX - 1), Some(i64::MAX));
}

#[test]
fn processed_record_commits_next_position() {
    let r = processed_outcome(3, 9, Payload::Text("x".to_string()), Ok(()));
    assert_eq!(
        r,
        Ok(PollOutcome::Processed {
            partition: 3,
            offset: 9,
            payload: Payload::Text("x".to_string()),
            committed: 10,
        })
    );
}

#[test]
fn failed_commit_ends_polling() {
    let r = processed_outcome(0, 4, Payload::Missing, Err("coordinator gone".to_string()));
    assert_eq!(r, Err(ClientError::Commit("coordinator gone".to_string())));
}

#[test]
fn payload_decoding() {
    assert_eq!(decode_payload(&None), Payload::Missing);
    assert_eq!(decode_payload(&Some(b"x".to_vec())), Payload::Text("x".to_string()));
    assert_eq!(decode_payload(&Some(Vec::new())), Payload::Text(String::new()));
    assert_eq!(
        decode_payload(&Some("température".as_bytes().to_vec())),
        Payload::Text("température".to_string())
    );
    assert_eq!(decode_payload(&Some(vec![0xff, 0xfe])), Payload::Undecodable);
}

#[test]
fn record_fields_are_plain() {
    let r = Record { topic: "t".to_string(), partition: 1, offset: 2, payload: None };
    assert_eq!(r.clone().offset, 2);
}

#[test]
fn sync_producer_binds_configured_topic() {
    let p = KafkaProducerSync::new(&unreachable_config()).expect("client creation is local");
    assert_eq!(p.topic, "orders");
}

#[test]
fn sync_send_succeeds_once_buffered() {
    let p = KafkaProducerSync::new(&unreachable_config()).expect("client creation is local");
    assert_eq!(p.send("x"), Ok(()));
}

#[test]
fn async_producer_binds_configured_topic() {
    let p = KafkaProducerAsync::new(&unreachable_config()).expect("client creation is local");
    assert_eq!(p.topic, "orders");
}

#[test]
fn sync_consumer_subscribes_configured_topic() {
    let c = KafkaConsumerSync::new(&unreachable_config()).expect("client creation is local");
    assert_eq!(c.topic, "orders");
    assert_eq!(c.group_id, "group-7");
}

#[test]
fn idle_poll_does_not_end_polling() {
    let c = KafkaConsumerSync::new(&unreachable_config()).expect("client creation is local");
    let outcomes = c.poll_messages(2).expect("no record arrives, so nothing is committed");
    assert_eq!(outcomes.len(), 2);
    for o in outcomes {
        assert!(matches!(o, PollOutcome::Idle | PollOutcome::Failed(_)));
    }
}

#[test]
fn stream_record_dispatches_next_position() {
    let out = stream_outcome(0, 5, Payload::Text("x".to_string()), Ok(()));
    assert_eq!(out.offset, 5);
    assert_eq!(out.partition, 0);
    assert_eq!(out.payload, Payload::Text("x".to_string()));
    assert_eq!(out.committed, Some(6));
    assert_eq!(out.commit_error, None);
}

#[test]
fn stream_commit_refusal_is_reported() {
    let out = stream_outcome(1, 7, Payload::Missing, Err("no coordinator".to_string()));
    assert_eq!(out.committed, None);
    assert_eq!(out.commit_error, Some("no coordinator".to_string()));
    assert_eq!(out.offset, 7);
}

fn nul_topic_config() -> KafkaConfig {
    KafkaConfig::new(
        Some("127.0.0.1:1".to_string()),
        Some("bad\0topic".to_string()),
        None,
        None,
        None,
    )
}

fn record(topic: &str, offset: i64, payload: Option<Vec<u8>>) -> Record {
    Record { topic: topic.to_string(), partition: 3, offset, payload }
}

#[test]
fn outgoing_record_fixes_topic_payload_and_key() {
    let p = KafkaProducerSync::new(&unreachable_config()).expect("client creation is local");
    let r = p.outgoing("x");
    assert_eq!(r.topic, "orders");
    assert_eq!(r.payload, "x");
    assert_eq!(r.key, "key");
    assert_eq!(p.outgoing("y").key, r.key);
}

#[test]
fn nul_detection() {
    assert!(has_nul("a\0b"));
    assert!(!has_nul("orders"));
    assert!(!has_nul(""));
}

#[test]
fn topic_list_holds_configured_topic() {
    assert_eq!(topic_list(&"orders".to_string()), vec!["orders".to_string()]);
}

#[test]
fn sync_consumer_subscription_is_the_topic() {
    let c = KafkaConsumerSync::new(&unreachable_config()).expect("client creation is local");
    assert_eq!(c.subscription, vec!["orders".to_string()]);
}

#[test]
fn nul_topic_is_a_connection_error() {
    assert!(matches!(
        KafkaConsumerSync::new(&nul_topic_config()),
        Err(ClientError::Connection(_))
    ));
    let rt = tokio::runtime::Runtime::new().expect("runtime");
    assert!(matches!(
        KafkaConsumerAsync::new(&nul_topic_config(), rt.handle()),
        Err(ClientError::Connection(_))
    ));
}

#[test]
fn run_returns_construction_error() {
    assert_eq!(
        run_connected(Err(ClientError::Connection("down".to_string())), 3),
        Err(ClientError::Connection("down".to_string()))
    );
    assert!(matches!(run_sync_consumer(&nul_topic_config(), 3), Err(ClientError::Connection(_))));
}

#[test]
fn commit_request_for_record() {
    assert_eq!(
        commit_request(&record("orders", 9, None)),
        Some(CommitRequest { topic: "orders".to_string(), partition: 3, position: 10 })
    );
    assert_eq!(commit_request(&record("orders", -1, None)), None);
    assert_eq!(commit_request(&record("or\0ders", 9, None)), None);
}

#[test]
fn idle_poll_plan() {
    assert_eq!(plan_poll(None), PollPlan::Finish(Ok(PollOutcome::Idle)));
}

#[test]
fn poll_error_plan_is_reported_without_commit() {
    assert_eq!(
        plan_poll(Some(Err("broker down".to_string()))),
        PollPlan::Finish(Ok(PollOutcome::Failed("broker down".to_string())))
    );
}

#[test]
fn received_record_plan_commits_next_position() {
    assert_eq!(
        plan_poll(Some(Ok(record("orders", 9, Some(b"x".to_vec()))))),
        PollPlan::Commit {
            request: CommitRequest { topic: "orders".to_string(), partition: 3, position: 10 },
            offset: 9,
            payload: Payload::Text("x".to_string()),
        }
    );
}

#[test]
fn undecodable_record_is_still_committed() {
    assert_eq!(
        plan_poll(Some(Ok(record("orders", 4, Some(vec![0xff]))))),
        PollPlan::Commit {
            request: CommitRequest { topic: "orders".to_string(), partition: 3, position: 5 },
            offset: 4,
            payload: Payload::Undecodable,
        }
    );
}

#[test]
fn uncommittable_record_plan_is_a_commit_error() {
    assert!(matches!(
        plan_poll(Some(Ok(record("orders", i64::MAX, None)))),
        PollPlan::Finish(Err(ClientError::Commit(_)))
    ));
}
