//! A small map keyed by strings, used for the pending request table (keyed
//! by correlation id) and the subscription registry (keyed by topic).  It
//! is an association list with unique keys, seen in contracts as a
//! `Map<Seq<char>, V>`.

use vstd::prelude::*;
use crate::text::str_eq;

verus! {

/// The map an entry list denotes: later entries overwrite earlier ones.
pub open spec fn pairs_map<V>(s: Seq<(String, V)>) -> Map<Seq<char>, V>
    decreases s.len(),
{
    if s.len() == 0 {
        Map::empty()
    } else {
        pairs_map(s.drop_last()).insert(s.last().0@, s.last().1)
    }
}

/// No key occurs twice in the entry list.
pub open spec fn unique_ids<V>(s: Seq<(String, V)>) -> bool {
    forall|i: int, j: int| 0 <= i < j < s.len() ==> s[i].0@ != s[j].0@
}

/// A key is in the denoted map exactly when some entry carries it.
pub proof fn lemma_pairs_map_contains<V>(s: Seq<(String, V)>, k: Seq<char>)
    ensures
        pairs_map(s).contains_key(k) <==> exists|i: int| 0 <= i < s.len() && s[i].0@ == k,
    decreases s.len(),
{
    if s.len() > 0 {
        let pre = s.drop_last();
        lemma_pairs_map_contains(pre, k);
        if s.last().0@ == k {
            assert(s[s.len() - 1].0@ == k);
        } else {
            if pairs_map(pre).contains_key(k) {
                let i = choose|i: int| 0 <= i < pre.len() && pre[i].0@ == k;
                assert(s[i].0@ == k);
            }
            if exists|i: int| 0 <= i < s.len() && s[i].0@ == k {
                let i = choose|i: int| 0 <= i < s.len() && s[i].0@ == k;
                assert(i < s.len() - 1);
                assert(pre[i].0@ == k);
            }
        }
    }
}

/// With unique keys, the denoted map sends each entry's key to that
/// entry's value.
pub proof fn lemma_pairs_map_index<V>(s: Seq<(String, V)>, i: int)
    requires
        unique_ids(s),
        0 <= i < s.len(),
    ensures
        pairs_map(s).contains_key(s[i].0@),
        pairs_map(s)[s[i].0@] == s[i].1,
    decreases s.len(),
{
    let pre = s.drop_last();
    if i == s.len() - 1 {
    } else {
        assert(unique_ids(pre));
        lemma_pairs_map_index(pre, i);
        assert(s[i].0@ != s.last().0@);
    }
}

/// With unique keys, removing an entry removes exactly its key from the
/// denoted map.
pub proof fn lemma_pairs_map_remove<V>(s: Seq<(String, V)>, i: int)
    requires
        unique_ids(s),
        0 <= i < s.len(),
    ensures
        pairs_map(s.remove(i)) == pairs_map(s).remove(s[i].0@),
    decreases s.len(),
{
    let k = s[i].0@;
    let pre = s.drop_last();
    if i == s.len() - 1 {
        assert(s.remove(i) =~= pre);
        lemma_pairs_map_contains(pre, k);
        assert(!pairs_map(pre).contains_key(k));
        assert(pairs_map(pre) =~= pairs_map(pre).insert(k, s.last().1).remove(k));
    } else {
        assert(unique_ids(pre));
        lemma_pairs_map_remove(pre, i);
        assert(s.remove(i).drop_last() =~= pre.remove(i));
        assert(s.remove(i).last() == s.last());
        assert(s.remove(i).len() > 0);
        assert(pairs_map(s.remove(i)) == pairs_map(pre.remove(i)).insert(
            s.last().0@,
            s.last().1,
        ));
        assert(k != s.last().0@);
        assert(pairs_map(pre).remove(k).insert(s.last().0@, s.last().1) =~= pairs_map(pre).insert(
            s.last().0@,
            s.last().1,
        ).remove(k));
    }
}

/// A map from correlation ids or topic names to values, with at most one
/// entry per key.
pub struct IdMap<V> {
    entries: Vec<(String, V)>,
}

impl<V> View for IdMap<V> {
    type V = Map<Seq<char>, V>;

    closed spec fn view(&self) -> Map<Seq<char>, V> {
        pairs_map(self.entries@)
    }
}

impl<V> IdMap<V> {
    #[verifier::type_invariant]
    spec fn inv(self) -> bool {
        unique_ids(self.entries@)
    }

    /// How many entries the map holds.
    pub closed spec fn spec_len(self) -> nat {
        self.entries@.len()
    }

    /// An empty map.
    pub fn new() -> (r: Self)
        ensures
            r@ == Map::<Seq<char>, V>::empty(),
            r.spec_len() == 0,
    {
        IdMap { entries: Vec::new() }
    }

    /// The position of the entry carrying `id`, if one does.
    fn find_index(&self, id: &str) -> (r: Option<usize>)
        ensures
            match r {
                Some(i) => i < self.entries@.len() && self.entries@[i as int].0@ == id@,
                None => forall|i: int| 0 <= i < self.entries@.len() ==> self.entries@[i].0@ != id@,
            },
    {
        let n = self.entries.len();
        let mut i: usize = 0;
        while i < n
            invariant
                n == self.entries@.len(),
                0 <= i <= n,
                forall|j: int| 0 <= j < i ==> self.entries@[j].0@ != id@,
            decreases n - i,
        {
            if str_eq(self.entries[i].0.as_str(), id) {
                return Some(i);
            }
            i = i + 1;
        }
        None
    }

    /// Inserts `value` under `id`, replacing any entry already there.
    pub fn insert(&mut self, id: String, value: V)
        ensures
            final(self)@ == old(self)@.insert(id@, value),
    {
        proof {
            use_type_invariant(&*self);
        }
        let found = self.find_index(id.as_str());
        let ghost s0 = self.entries@;
        let mut entries: Vec<(String, V)> = Vec::new();
        std::mem::swap(&mut entries, &mut self.entries);
        match found {
            Some(i) => {
                proof {
                    lemma_pairs_map_remove(s0, i as int);
                    s0.remove_ensures(i as int);
                }
                entries.remove(i);
                proof {
                    assert(forall|j: int| 0 <= j < entries@.len() ==> entries@[j].0@ != id@);
                }
                entries.push((id, value));
                proof {
                    assert(entries@.drop_last() =~= s0.remove(i as int));
                    assert(pairs_map(entries@) == pairs_map(s0.remove(i as int)).insert(
                        id@,
                        value,
                    ));
                    assert(old(self)@.remove(id@).insert(id@, value) =~= old(self)@.insert(
                        id@,
                        value,
                    ));
                }
            },
            None => {
                entries.push((id, value));
                proof {
                    lemma_pairs_map_contains(s0, id@);
                    assert(entries@.drop_last() =~= s0);
                }
            },
        }
        self.entries = entries;
    }

    /// Removes and returns the value under `id`; a miss changes nothing.
    pub fn remove(&mut self, id: &str) -> (r: Option<V>)
        ensures
            match r {
                Some(v) => old(self)@.contains_key(id@) && v == old(self)@[id@] && final(self)@
                    == old(self)@.remove(id@),
                None => !old(self)@.contains_key(id@) && final(self)@ == old(self)@,
            },
    {
        proof {
            use_type_invariant(&*self);
        }
        let found = self.find_index(id);
        let ghost s0 = self.entries@;
        match found {
            Some(i) => {
                let mut entries: Vec<(String, V)> = Vec::new();
                std::mem::swap(&mut entries, &mut self.entries);
                proof {
                    lemma_pairs_map_index(s0, i as int);
                    lemma_pairs_map_remove(s0, i as int);
                    s0.remove_ensures(i as int);
                }
                let entry = entries.remove(i);
                self.entries = entries;
                Some(entry.1)
            },
            None => {
                proof {
                    lemma_pairs_map_contains(s0, id@);
                }
                None
            },
        }
    }

    /// A borrow of the value under `id`, if one is there.
    pub fn get(&self, id: &str) -> (r: Option<&V>)
        ensures
            match r {
                Some(v) => self@.contains_key(id@) && *v == self@[id@],
                None => !self@.contains_key(id@),
            },
    {
        proof {
            use_type_invariant(self);
        }
        match self.find_index(id) {
            Some(i) => {
                proof {
                    lemma_pairs_map_index(self.entries@, i as int);
                }
                Some(&self.entries[i].1)
            },
            None => {
                proof {
                    lemma_pairs_map_contains(self.entries@, id@);
                }
                None
            },
        }
    }

    /// Removes and returns some entry; `None` exactly when the map is
    /// empty.
    pub fn pop(&mut self) -> (r: Option<(String, V)>)
        ensures
            match r {
                Some(p) => old(self)@.contains_key(p.0@) && p.1 == old(self)@[p.0@] && final(self)@
                    == old(self)@.remove(p.0@) && final(self).spec_len() == old(self).spec_len()
                    - 1,
                None => final(self)@ == old(self)@ && old(self)@ == Map::<Seq<char>, V>::empty()
                    && final(self).spec_len() == 0,
            },
    {
        proof {
            use_type_invariant(&*self);
        }
        let ghost s = self.entries@;
        let mut entries: Vec<(String, V)> = Vec::new();
        std::mem::swap(&mut entries, &mut self.entries);
        let r = entries.pop();
        self.entries = entries;
        match r {
            Some(entry) => {
                proof {
                    lemma_pairs_map_index(s, s.len() - 1);
                    lemma_pairs_map_remove(s, s.len() - 1);
                    assert(s.remove(s.len() - 1) =~= s.drop_last());
                    assert(self.entries@ =~= s.drop_last());
                }
                Some(entry)
            },
            None => None,
        }
    }

    /// How many entries the map holds.
    pub fn len(&self) -> (n: usize)
        ensures
            n == self.spec_len(),
    {
        self.entries.len()
    }
}

} // verus!
