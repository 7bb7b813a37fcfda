use vstd::prelude::*;
use crate::packet::{PacketId, PacketKey};

verus! {

/// A mapping from packet identity to the instant (in milliseconds) at which
/// it was recorded. Entries are never evicted.
pub struct TimestampStore {
    entries: Vec<(PacketId, u64)>,
    model: Ghost<Map<PacketKey, u64>>,
}

impl View for TimestampStore {
    type V = Map<PacketKey, u64>;

    closed spec fn view(&self) -> Map<PacketKey, u64> {
        self.model@
    }
}

impl TimestampStore {
    /// Each entry is in the model with its instant, each key of the model has
    /// an entry, and no two entries share a key.
    pub closed spec fn wf(&self) -> bool {
        &&& forall|i: int|
            0 <= i < self.entries@.len() ==> #[trigger] self.model@.contains_key(self.entries@[i].0@)
                && self.model@[self.entries@[i].0@] == self.entries@[i].1
        &&& forall|k: PacketKey|
            #[trigger] self.model@.contains_key(k) ==> exists|i: int|
                0 <= i < self.entries@.len() && self.entries@[i].0@ == k
        &&& forall|i: int, j: int|
            0 <= i < self.entries@.len() && 0 <= j < self.entries@.len() && i != j
                ==> self.entries@[i].0@ != self.entries@[j].0@
    }

    pub fn new() -> (r: TimestampStore)
        ensures
            r.wf(),
            r@ == Map::<PacketKey, u64>::empty(),
    {
        TimestampStore { entries: Vec::new(), model: Ghost(Map::empty()) }
    }

    /// The position of the entry for `key`, if there is one.
    fn find(&self, key: &PacketId) -> (r: Option<usize>)
        requires
            self.wf(),
        ensures
            match r {
                Some(i) => i < self.entries@.len() && self.entries@[i as int].0@ == key@,
                None => !self@.contains_key(key@),
            },
    {
        let mut i: usize = 0;
        while i < self.entries.len()
            invariant
                self.wf(),
                i <= self.entries@.len(),
                forall|j: int| 0 <= j < i ==> self.entries@[j].0@ != key@,
            decreases self.entries@.len() - i,
        {
            if self.entries[i].0 == *key {
                return Some(i);
            }
            i = i + 1;
        }
        None
    }

    /// The instant recorded for `key`, if any.
    pub fn lookup(&self, key: &PacketId) -> (r: Option<u64>)
        requires
            self.wf(),
        ensures
            r == (if self@.contains_key(key@) { Some(self@[key@]) } else { None::<u64> }),
    {
        match self.find(key) {
            Some(i) => Some(self.entries[i].1),
            None => None,
        }
    }

    /// Records `now` for `key`, replacing an earlier instant for the same key.
    pub fn record(&mut self, key: PacketId, now: u64)
        requires
            old(self).wf(),
        ensures
            final(self).wf(),
            final(self)@ == old(self)@.insert(key@, now),
    {
        let ghost k = key@;
        match self.find(&key) {
            Some(i) => {
                self.entries.set(i, (key, now));
                self.model = Ghost(self.model@.insert(k, now));
                assert forall|k2: PacketKey| #[trigger] self.model@.contains_key(k2) implies exists|j: int|
                    0 <= j < self.entries@.len() && self.entries@[j].0@ == k2 by {
                    if k2 != k {
                        let j = choose|j: int| 0 <= j < old(self).entries@.len() && old(self).entries@[j].0@ == k2;
                        assert(self.entries@[j] == old(self).entries@[j]);
                    } else {
                        assert(self.entries@[i as int].0@ == k2);
                    }
                }
                assert forall|a: int|
                    0 <= a < self.entries@.len() implies #[trigger] self.model@.contains_key(self.entries@[a].0@)
                        && self.model@[self.entries@[a].0@] == self.entries@[a].1 by {
                    if a != i {
                        assert(self.entries@[a] == old(self).entries@[a]);
                        assert(old(self).model@.contains_key(old(self).entries@[a].0@));
                    }
                }
                assert forall|a: int, b: int|
                    0 <= a < self.entries@.len() && 0 <= b < self.entries@.len() && a != b
                        implies self.entries@[a].0@ != self.entries@[b].0@ by {
                    assert(self.entries@[a].0@ == old(self).entries@[a].0@);
                    assert(self.entries@[b].0@ == old(self).entries@[b].0@);
                }
            },
            None => {
                self.entries.push((key, now));
                self.model = Ghost(self.model@.insert(k, now));
                assert forall|i: int|
                    0 <= i < self.entries@.len() implies #[trigger] self.model@.contains_key(self.entries@[i].0@)
                        && self.model@[self.entries@[i].0@] == self.entries@[i].1 by {
                    if i < old(self).entries@.len() {
                        assert(old(self).model@.contains_key(old(self).entries@[i].0@));
                    }
                }
                assert forall|k2: PacketKey| #[trigger] self.model@.contains_key(k2) implies exists|j: int|
                    0 <= j < self.entries@.len() && self.entries@[j].0@ == k2 by {
                    if k2 != k {
                        let j = choose|j: int| 0 <= j < old(self).entries@.len() && old(self).entries@[j].0@ == k2;
                        assert(self.entries@[j] == old(self).entries@[j]);
                    } else {
                        assert(self.entries@[old(self).entries@.len() as int].0@ == k2);
                    }
                }
                assert forall|i: int, j: int|
                    0 <= i < self.entries@.len() && 0 <= j < self.entries@.len() && i != j
                        implies self.entries@[i].0@ != self.entries@[j].0@ by {
                    let n = old(self).entries@.len() as int;
                    if i < n && j == n {
                        assert(old(self).model@.contains_key(old(self).entries@[i].0@));
                    } else if j < n && i == n {
                        assert(old(self).model@.contains_key(old(self).entries@[j].0@));
                    }
                }
            },
        }
    }
}

} // verus!
