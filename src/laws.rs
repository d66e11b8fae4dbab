//! What the client's contracts mean against a model of one partition of a
//! topic: its records in offset order, and the position that a consumer group
//! has committed there.
use vstd::prelude::*;

use crate::config::KafkaConfig;
use crate::consumer_async::StreamOutcome;
use crate::consumer_sync::{commits_next, PollOutcome};
use crate::error::ClientError;
use crate::producer_async::{delivery_spec, DeliveryReport};
use crate::producer_sync::outgoing_spec;
use crate::settings::consumer_settings;

verus! {

/// Where a consumer of the group starts reading: the committed position, or
/// the earliest offset when the group has committed none.
pub open spec fn start_offset(committed: Option<int>) -> int {
    match committed {
        Some(p) => p,
        None => 0,
    }
}

/// The records that a newly constructed consumer of the group is delivered,
/// in order.
pub open spec fn delivered(log: Seq<Seq<char>>, committed: Option<int>) -> Seq<Seq<char>> {
    log.subrange(start_offset(committed), log.len() as int)
}

/// A position that the group can have committed in `log`.
pub open spec fn valid_position(log: Seq<Seq<char>>, committed: Option<int>) -> bool {
    0 <= start_offset(committed) <= log.len()
}

/// A message that the blocking producer sent and flushed is appended, as the
/// payload of its `outgoing` record, to the partition of its topic, and a
/// consumer of the group constructed afterwards is delivered it, as the last
/// record it sees. That the broker appends a flushed record is the model's
/// assumption, not a property of this crate.
pub proof fn flushed_message_is_delivered(
    log: Seq<Seq<char>>,
    committed: Option<int>,
    topic: Seq<char>,
    value: Seq<char>,
)
    requires
        valid_position(log, committed),
    ensures
        delivered(log.push(outgoing_spec(topic, value).1), committed).len() > 0,
        delivered(log.push(outgoing_spec(topic, value).1), committed).last() == value,
{
}

/// Once a poll of the blocking consumer has processed the record at offset
/// `n` and committed, a newly constructed consumer of the group starts at
/// `n + 1`: it is delivered every later record, and not the record at `n`.
pub proof fn commit_resumes_after(log: Seq<Seq<char>>, outcome: PollOutcome)
    requires
        commits_next(outcome),
        outcome matches PollOutcome::Processed { offset, .. } && offset < log.len(),
    ensures
        outcome matches PollOutcome::Processed { offset, committed, .. } && start_offset(
            Some(committed as int),
        ) == offset + 1 && delivered(log, Some(committed as int)) == log.subrange(
            offset + 1,
            log.len() as int,
        ),
{
}

/// When the streaming consumer stops after receiving the record at offset
/// `n`, before the commit it dispatched is acknowledged, the group's position
/// is still an earlier one, and a consumer constructed afterwards is delivered
/// the record at `n` again.
pub proof fn unacknowledged_commit_redelivers(
    log: Seq<Seq<char>>,
    earlier: Option<int>,
    outcome: StreamOutcome,
)
    requires
        0 <= start_offset(earlier) <= outcome.offset < log.len(),
    ensures
        delivered(log, earlier)[outcome.offset - start_offset(earlier)] == log[outcome.offset as int],
        delivered(log, earlier).contains(log[outcome.offset as int]),
{
    let n = outcome.offset as int;
    assert(delivered(log, earlier)[n - start_offset(earlier)] == log[n]);
}

/// A send of the non-blocking producer succeeds exactly when the broker
/// acknowledged the message with an offset, and its report then holds that
/// non-negative offset.
pub proof fn delivery_success_has_offset(status: Result<(i32, i64), String>, r: Result<
    DeliveryReport,
    ClientError,
>)
    requires
        delivery_spec(status, r),
    ensures
        r is Ok <==> (status matches Ok((_, offset)) && offset >= 0),
        r matches Ok(report) ==> report.offset >= 0 && status == Ok::<(i32, i64), String>(
            (report.partition, report.offset),
        ),
{
}

/// Every consumer joins the configured group at the configured broker, starts
/// from the earliest offset when the group has committed none, and never
/// commits on its own.
pub proof fn consumer_commits_by_hand(cfg: KafkaConfig)
    ensures
        consumer_settings(cfg)["bootstrap.servers"@] == cfg.broker@,
        consumer_settings(cfg)["group.id"@] == cfg.group_id@,
        consumer_settings(cfg)["auto.offset.reset"@] == "earliest"@,
        consumer_settings(cfg)["enable.auto.commit"@] == "false"@,
{
    reveal_strlit("bootstrap.servers");
    reveal_strlit("security.protocol");
    reveal_strlit("sasl.mechanism");
    reveal_strlit("sasl.username");
    reveal_strlit("sasl.password");
    reveal_strlit("group.id");
    reveal_strlit("auto.offset.reset");
    reveal_strlit("enable.auto.commit");
    assert("bootstrap.servers"@[0] != "security.protocol"@[0]);
    assert("bootstrap.servers"@.len() != "sasl.mechanism"@.len());
    assert("bootstrap.servers"@.len() != "sasl.username"@.len());
    assert("bootstrap.servers"@.len() != "sasl.password"@.len());
    assert("bootstrap.servers"@.len() != "group.id"@.len());
    assert("bootstrap.servers"@[0] != "auto.offset.reset"@[0]);
    assert("bootstrap.servers"@.len() != "enable.auto.commit"@.len());
    assert("group.id"@.len() != "auto.offset.reset"@.len());
    assert("group.id"@.len() != "enable.auto.commit"@.len());
    assert("auto.offset.reset"@.len() != "enable.auto.commit"@.len());
}

/// Messages sent in sequence by one blocking producer all go out with its
/// topic and the same key (`outgoing`), so they go to one partition, appended
/// in the order sent (the model's assumption of the broker); a consumer
/// positioned before them is delivered them in that order.
pub proof fn same_key_order_is_kept(log: Seq<Seq<char>>, topic: Seq<char>, values: Seq<Seq<char>>)
    ensures
        forall|i: int, j: int|
            0 <= i < values.len() && 0 <= j < values.len() ==> (#[trigger] outgoing_spec(
                topic,
                values[i],
            )).2 == (#[trigger] outgoing_spec(topic, values[j])).2 && outgoing_spec(
                topic,
                values[i],
            ).0 == outgoing_spec(topic, values[j]).0,
        delivered(
            log + values.map_values(|v: Seq<char>| outgoing_spec(topic, v).1),
            Some(log.len() as int),
        ) == values,
{
    let sent = values.map_values(|v: Seq<char>| outgoing_spec(topic, v).1);
    assert(sent =~= values);
    assert(delivered(log + sent, Some(log.len() as int)) =~= values);
}

} // verus!
