//! The pending request table: one single-use completion slot per
//! correlation id, consumed when the matching reply arrives.

use vstd::prelude::*;
use crate::idmap::IdMap;
use crate::query::CacheQuery;
use crate::resolver::QueueResolver;

verus! {

/// Maps each in-flight correlation id to the slot its caller awaits.
pub struct PendingTable {
    slots: IdMap<QueueResolver>,
}

impl View for PendingTable {
    type V = Map<Seq<char>, QueueResolver>;

    closed spec fn view(&self) -> Map<Seq<char>, QueueResolver> {
        self.slots@
    }
}

impl PendingTable {
    /// An empty table.
    pub fn new() -> (r: Self)
        ensures
            r@ == Map::<Seq<char>, QueueResolver>::empty(),
    {
        PendingTable { slots: IdMap::new() }
    }

    /// Registers a fresh slot under `id` and returns the receiving half
    /// the caller awaits.  A second registration under the same id
    /// replaces the first, orphaning its awaiter.
    pub fn enqueue(&mut self, id: &str) -> (rx: tokio::sync::oneshot::Receiver<CacheQuery>)
        ensures
            exists|r: QueueResolver| final(self)@ == old(self)@.insert(id@, r),
    {
        let (tx, rx) = tokio::sync::oneshot::channel();
        let resolver = QueueResolver::new(tx);
        let ghost g = resolver;
        self.slots.insert(id.to_owned(), resolver);
        proof {
            assert(final(self)@ == old(self)@.insert(id@, g));
        }
        rx
    }

    /// Removes the slot registered under the reply's id, if any, and
    /// delivers the reply to it; a reply carrying an unknown id changes
    /// nothing.
    pub fn resolve(&mut self, result: CacheQuery) -> (found: bool)
        ensures
            found == old(self)@.contains_key(result.id@),
            final(self)@ == old(self)@.remove(result.id@),
            !found ==> final(self)@ == old(self)@,
    {
        let r = self.slots.remove(result.id.as_str());
        match r {
            Some(resolver) => {
                resolver.resolve(result);
                true
            },
            None => {
                proof {
                    assert(old(self)@.remove(result.id@) =~= old(self)@);
                }
                false
            },
        }
    }

    /// Empties the table, delivering to every outstanding slot an error
    /// reply carrying its own id, so that no awaiting caller hangs when
    /// the connection is lost.
    pub fn fail_all(&mut self)
        ensures
            final(self)@ == Map::<Seq<char>, QueueResolver>::empty(),
    {
        loop
            invariant
                true,
            ensures
                self@ == Map::<Seq<char>, QueueResolver>::empty(),
            decreases self.slots.spec_len(),
        {
            match self.slots.pop() {
                Some(entry) => {
                    let failure = CacheQuery::new(entry.0.as_str(), None, true);
                    entry.1.resolve(failure);
                },
                None => {
                    break;
                },
            }
        }
    }
}

} // verus!
