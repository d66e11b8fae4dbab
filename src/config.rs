use vstd::prelude::*;

verus! {

/// Connection parameters shared by every component: endpoint, topic, consumer
/// group and the SASL/PLAIN credential.
#[derive(Debug, Clone)]
pub struct KafkaConfig {
    pub broker: String,
    pub topic: String,
    pub group_id: String,
    pub username: String,
    pub password: String,
}

pub open spec fn default_broker() -> Seq<char> {
    "localhost:9094"@
}

pub open spec fn default_topic() -> Seq<char> {
    "kafka-rust"@
}

pub open spec fn default_group_id() -> Seq<char> {
    "group-1"@
}

pub open spec fn default_username() -> Seq<char> {
    "client"@
}

pub open spec fn default_password() -> Seq<char> {
    "client-pass"@
}

/// The value of a setting: the one supplied, else the fallback.
pub open spec fn setting_or(value: Option<String>, fallback: Seq<char>) -> Seq<char> {
    match value {
        Some(v) => v@,
        None => fallback,
    }
}

fn value_or(value: Option<String>, fallback: &str) -> (r: String)
    ensures
        r@ == setting_or(value, fallback@),
{
    match value {
        Some(v) => v,
        None => fallback.to_owned(),
    }
}

/// Whether a name holds a NUL character, which no topic name may hold.
pub fn has_nul(s: &str) -> (r: bool)
    ensures
        r == s@.contains('\0'),
{
    let n = s.unicode_len();
    let mut i: usize = 0;
    while i < n
        invariant
            n == s@.len(),
            i <= n,
            forall|k: int| 0 <= k < i ==> s@[k] != '\0',
        decreases n - i,
    {
        if s.get_char(i) == '\0' {
            return true;
        }
        i = i + 1;
    }
    false
}

impl KafkaConfig {
    /// Builds the configuration from the settings that were found; each one
    /// that is missing takes its fallback, so this never fails.
    pub fn new(
        broker: Option<String>,
        topic: Option<String>,
        group_id: Option<String>,
        username: Option<String>,
        password: Option<String>,
    ) -> (r: KafkaConfig)
        ensures
            r.broker@ == setting_or(broker, default_broker()),
            r.topic@ == setting_or(topic, default_topic()),
            r.group_id@ == setting_or(group_id, default_group_id()),
            r.username@ == setting_or(username, default_username()),
            r.password@ == setting_or(password, default_password()),
    {
        KafkaConfig {
            broker: value_or(broker, "localhost:9094"),
            topic: value_or(topic, "kafka-rust"),
            group_id: value_or(group_id, "group-1"),
            username: value_or(username, "client"),
            password: value_or(password, "client-pass"),
        }
    }
}

} // verus!
