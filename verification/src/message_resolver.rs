//! The delivery side of one topic subscription.

use vstd::prelude::*;
use crate::channels::send_payload;

verus! {

/// Holds the sending half of the stream a topic's subscriber consumes.
/// The channel is unbounded, so delivering to one slow subscriber never
/// stalls the dispatcher or any other topic.
pub struct MessageResolver {
    /// The sending half of the subscriber's stream.
    pub sender: tokio::sync::mpsc::UnboundedSender<String>,
}

impl MessageResolver {
    /// Wraps the sending half of a fresh subscriber stream.
    pub fn new(sender: tokio::sync::mpsc::UnboundedSender<String>) -> (r: MessageResolver)
        ensures
            r.sender == sender,
    {
        MessageResolver { sender }
    }

    /// Queues one payload for the subscriber; if the subscriber has
    /// dropped its stream the payload is dropped.
    pub fn resolve(&self, result: String) {
        let _ = send_payload(&self.sender, result);
    }
}

} // verus!
