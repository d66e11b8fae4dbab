use vstd::prelude::*;

verus! {

/// The errors of the client, each with the transport's description.
#[derive(Debug, Clone, PartialEq, Eq)]
pub enum ClientError {
    /// The transport could not be established, authenticated or subscribed.
    Connection(String),
    /// The local send buffer refused a message.
    Send(String),
    /// The broker did not acknowledge a message with a position.
    Delivery(String),
    /// An offset commit failed.
    Commit(String),
}

} // verus!
