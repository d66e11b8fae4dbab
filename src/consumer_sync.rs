//! The blocking receive path.
use vstd::prelude::*;

use crate::client::{
    commit_sync,
    create_sync_consumer,
    error_text,
    poll,
    subscribe_sync,
    Record,
    SyncConsumerHandle,
};
use crate::config::{has_nul, KafkaConfig};
use crate::error::ClientError;
use crate::payload::{decode_payload, payload_bytes, payload_of, Payload};
use crate::settings::consumer_config;

verus! {

/// How long one poll blocks waiting for a record.
pub const POLL_INTERVAL_MS: u64 = 500;

/// The offset a group resumes from once the record at `offset` is processed.
pub open spec fn next_position(offset: int) -> int {
    offset + 1
}

/// The position to commit after processing the record at `offset`; `None`
/// for an offset that no stored record has (negative) or that has no
/// successor.
pub fn commit_position(offset: i64) -> (r: Option<i64>)
    ensures
        r == (if 0 <= offset < i64::MAX {
            Some(next_position(offset as int) as i64)
        } else {
            None::<i64>
        }),
{
    if 0 <= offset && offset < i64::MAX {
        Some(offset + 1)
    } else {
        None
    }
}

/// What one poll of the blocking consumer came to.
#[derive(Debug, Clone, PartialEq, Eq)]
pub enum PollOutcome {
    /// No record arrived within the poll interval.
    Idle,
    /// The broker reported an error for this poll; polling goes on.
    Failed(String),
    /// A record was received, reported and its position committed.
    Processed { partition: i32, offset: i64, payload: Payload, committed: i64 },
}

/// Whether `r` is the result of one poll that received the record at
/// `offset`, given the answer of its synchronous commit: the record is
/// processed with the next position committed, or the commit error ends the
/// polling.
pub open spec fn processed_spec(
    partition: i32,
    offset: i64,
    payload: Payload,
    commit: Result<(), String>,
    r: Result<PollOutcome, ClientError>,
) -> bool {
    match commit {
        Ok(()) => r == Ok::<PollOutcome, ClientError>(
            PollOutcome::Processed {
                partition,
                offset,
                payload,
                committed: next_position(offset as int) as i64,
            },
        ),
        Err(d) => r matches Err(ClientError::Commit(e)) && e@ == d@,
    }
}

/// The outcome of a poll that received a record, once its commit has been
/// answered.
pub fn processed_outcome(
    partition: i32,
    offset: i64,
    payload: Payload,
    commit: Result<(), String>,
) -> (r: Result<PollOutcome, ClientError>)
    requires
        0 <= offset < i64::MAX,
    ensures
        processed_spec(partition, offset, payload, commit, r),
{
    match commit {
        Ok(()) => Ok(PollOutcome::Processed { partition, offset, payload, committed: offset + 1 }),
        Err(d) => Err(ClientError::Commit(d)),
    }
}

/// Whether an outcome of one poll keeps to the commit rule: a processed
/// record's committed position is the one after it.
pub open spec fn commits_next(o: PollOutcome) -> bool {
    o matches PollOutcome::Processed { offset, committed, .. } ==> committed == next_position(
        offset as int,
    ) && offset >= 0
}

/// The topic list a consumer subscribes to: the one configured topic.
pub fn topic_list(topic: &String) -> (r: Vec<String>)
    ensures
        r@.len() == 1,
        r@[0]@ == topic@,
{
    let mut topics: Vec<String> = Vec::new();
    topics.push(topic.clone());
    topics
}

/// A commit of `position` as the group's next offset in a topic's partition.
#[derive(Debug, Clone, PartialEq, Eq)]
pub struct CommitRequest {
    pub topic: String,
    pub partition: i32,
    pub position: i64,
}

/// Whether a received record can be committed: its offset has a successor
/// and its topic name holds no NUL character.
pub open spec fn committable(rec: Record) -> bool {
    0 <= rec.offset < i64::MAX && !rec.topic@.contains('\0')
}

/// The commit that follows processing `rec`: its topic and partition, at the
/// position after it; `None` when the record cannot be committed.
pub fn commit_request(rec: &Record) -> (r: Option<CommitRequest>)
    ensures
        r is Some <==> committable(*rec),
        r matches Some(q) ==> q.topic@ == rec.topic@ && q.partition == rec.partition
            && q.position == next_position(rec.offset as int),
{
    if has_nul(rec.topic.as_str()) {
        return None;
    }
    match commit_position(rec.offset) {
        None => None,
        Some(position) => Some(
            CommitRequest { topic: rec.topic.clone(), partition: rec.partition, position },
        ),
    }
}

/// What comes of one poll's answer before any commit: the poll is finished,
/// or the received record is to be committed and reported.
#[derive(Debug, PartialEq, Eq)]
pub enum PollPlan {
    Finish(Result<PollOutcome, ClientError>),
    Commit { request: CommitRequest, offset: i64, payload: Payload },
}

/// Decides what follows one poll, given its answer: nothing arrived (idle,
/// polling goes on), a poll error (reported, no commit, polling goes on), or a
/// record, which is decoded and then committed whether or not its payload
/// reads as text.
pub fn plan_poll(polled: Option<Result<Record, String>>) -> (r: PollPlan)
    ensures
        polled is None ==> r matches PollPlan::Finish(Ok(PollOutcome::Idle)),
        polled matches Some(Err(d)) ==> (r matches PollPlan::Finish(Ok(PollOutcome::Failed(e)))
            && e@ == d@),
        polled matches Some(Ok(rec)) ==> (committable(rec) ==> (r matches PollPlan::Commit {
            request,
            offset,
            payload,
        } && request.topic@ == rec.topic@ && request.partition == rec.partition
            && request.position == next_position(rec.offset as int) && offset == rec.offset
            && payload_of(payload_bytes(rec.payload), payload))),
        polled matches Some(Ok(rec)) ==> (!committable(rec) ==> (r matches PollPlan::Finish(
            Err(ClientError::Commit(_)),
        ))),
{
    match polled {
        None => PollPlan::Finish(Ok(PollOutcome::Idle)),
        Some(Err(d)) => PollPlan::Finish(Ok(PollOutcome::Failed(d))),
        Some(Ok(rec)) => match commit_request(&rec) {
            None => PollPlan::Finish(Err(ClientError::Commit("record cannot be committed".to_owned()))),
            Some(request) => {
                let payload = decode_payload(&rec.payload);
                PollPlan::Commit { request, offset: rec.offset, payload }
            },
        },
    }
}

/// A consumer that polls, reports each record and commits it before it polls
/// again.
pub struct KafkaConsumerSync {
    /// The connection.
    pub consumer: SyncConsumerHandle,
    /// The subscribed topic.
    pub topic: String,
    /// The consumer group it joined.
    pub group_id: String,
    /// The topic list the connection subscribed to.
    pub subscription: Vec<String>,
}

impl KafkaConsumerSync {
    /// Connects with the consumer settings (its group, earliest offset,
    /// no automatic commit) and subscribes to exactly the configured topic; a
    /// topic name with a NUL character is a connection error.
    pub fn new(config: &KafkaConfig) -> (r: Result<KafkaConsumerSync, ClientError>)
        ensures
            r matches Ok(c) ==> c.topic@ == config.topic@ && c.group_id@ == config.group_id@
                && c.subscription@.len() == 1 && c.subscription@[0]@ == config.topic@,
            r matches Err(e) ==> e is Connection,
            config.topic@.contains('\0') ==> r is Err,
    {
        if has_nul(config.topic.as_str()) {
            return Err(ClientError::Connection("topic name holds a NUL character".to_owned()));
        }
        let settings = consumer_config(config);
        let consumer = match create_sync_consumer(&settings) {
            Ok(c) => c,
            Err(e) => {
                return Err(ClientError::Connection(error_text(&e)));
            },
        };
        let subscription = topic_list(&config.topic);
        match subscribe_sync(&consumer, &subscription) {
            Ok(()) => Ok(
                KafkaConsumerSync {
                    consumer,
                    topic: config.topic.clone(),
                    group_id: config.group_id.clone(),
                    subscription,
                },
            ),
            Err(e) => Err(ClientError::Connection(error_text(&e))),
        }
    }

    /// Blocks up to `POLL_INTERVAL_MS` for a record and acts on the answer as
    /// `plan_poll` decides; a record to commit is committed synchronously and
    /// the outcome is `processed_outcome` of the broker's answer. An idle
    /// interval or a poll error is an outcome; only a failed commit is an
    /// error.
    pub fn poll_once(&self) -> (r: Result<PollOutcome, ClientError>)
        ensures
            r matches Ok(o) ==> commits_next(o),
            r matches Err(e) ==> e is Commit,
    {
        let polled = match poll(&self.consumer, POLL_INTERVAL_MS) {
            None => None,
            Some(Ok(record)) => Some(Ok(record)),
            Some(Err(e)) => Some(Err(error_text(&e))),
        };
        match plan_poll(polled) {
            PollPlan::Finish(r) => r,
            PollPlan::Commit { request, offset, payload } => {
                let commit = match commit_sync(&self.consumer, &request) {
                    Ok(()) => Ok(()),
                    Err(e) => Err(error_text(&e)),
                };
                processed_outcome(request.partition, offset, payload, commit)
            },
        }
    }

    /// Polls `polls` times, or until a commit fails; returns the outcome of
    /// each poll in order.
    pub fn poll_messages(&self, polls: u64) -> (r: Result<Vec<PollOutcome>, ClientError>)
        ensures
            r matches Ok(v) ==> v@.len() == polls && forall|i: int|
                0 <= i < v@.len() ==> commits_next(#[trigger] v@[i]),
            r matches Err(e) ==> e is Commit,
    {
        let mut outcomes: Vec<PollOutcome> = Vec::new();
        let mut i: u64 = 0;
        while i < polls
            invariant
                i <= polls,
                outcomes@.len() == i,
                forall|k: int| 0 <= k < outcomes@.len() ==> commits_next(#[trigger] outcomes@[k]),
            decreases polls - i,
        {
            let o = self.poll_once()?;
            outcomes.push(o);
            i = i + 1;
        }
        Ok(outcomes)
    }
}

/// Runs `polls` polls on a consumer whose construction came to `built`: a
/// construction error is returned as it is, with no poll made.
pub fn run_connected(built: Result<KafkaConsumerSync, ClientError>, polls: u64) -> (r: Result<
    Vec<PollOutcome>,
    ClientError,
>)
    ensures
        built matches Err(e) ==> r == Err::<Vec<PollOutcome>, ClientError>(e),
        built is Ok ==> (r matches Ok(v) ==> v@.len() == polls && forall|i: int|
            0 <= i < v@.len() ==> commits_next(#[trigger] v@[i])),
        built is Ok ==> (r matches Err(e) ==> e is Commit),
{
    match built {
        Err(e) => Err(e),
        Ok(consumer) => consumer.poll_messages(polls),
    }
}

/// Connects a blocking consumer and runs `polls` polls on it.
pub fn run_sync_consumer(config: &KafkaConfig, polls: u64) -> (r: Result<Vec<PollOutcome>, ClientError>)
    ensures
        r matches Ok(v) ==> v@.len() == polls && forall|i: int|
            0 <= i < v@.len() ==> commits_next(#[trigger] v@[i]),
        r matches Err(e) ==> e is Connection || e is Commit,
{
    run_connected(KafkaConsumerSync::new(config), polls)
}

} // verus!
