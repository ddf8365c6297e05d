//! The single-use completion slot a pending request awaits on.

use vstd::prelude::*;
use crate::query::CacheQuery;

verus! {

/// Holds the sending half of the single-use channel whose receiving half
/// the issuing caller awaits.
pub struct QueueResolver {
    /// The sending half of the slot.
    pub sender: tokio::sync::oneshot::Sender<CacheQuery>,
}

impl QueueResolver {
    /// Wraps the sending half of a fresh slot.
    pub fn new(sender: tokio::sync::oneshot::Sender<CacheQuery>) -> (r: QueueResolver)
        ensures
            r.sender == sender,
    {
        QueueResolver { sender }
    }

    /// Delivers the reply to the awaiting caller.  Delivery consumes the
    /// slot, so a slot resolves at most once; if the caller has already
    /// gone, the reply is dropped.
    pub fn resolve(self, result: CacheQuery) {
        let _ = self.sender.send(result);
    }
}

} // verus!
