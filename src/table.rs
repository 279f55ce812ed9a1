use vstd::prelude::*;
use crate::ids::{AccountId, NameHash};

verus! {

/// The entry of `m` under `k`, or `None` where `m` has none.
pub open spec fn lookup(m: Map<NameHash, AccountId>, k: NameHash) -> Option<AccountId> {
    if m.contains_key(k) {
        Some(m[k])
    } else {
        None
    }
}

/// A map from names to account identities, kept as a list of entries with
/// distinct keys.
pub struct NameTable {
    entries: Vec<(NameHash, AccountId)>,
    contents: Ghost<Map<NameHash, AccountId>>,
}

impl View for NameTable {
    type V = Map<NameHash, AccountId>;

    closed spec fn view(&self) -> Map<NameHash, AccountId> {
        self.contents@
    }
}

impl NameTable {
    /// The entries have distinct keys, and they are exactly the map's pairs.
    pub closed spec fn wf(&self) -> bool {
        &&& forall|i: int, j: int|
            0 <= i < j < self.entries@.len() ==> #[trigger] self.entries@[i].0
                != #[trigger] self.entries@[j].0
        &&& forall|i: int|
            0 <= i < self.entries@.len() ==> {
                &&& self.contents@.contains_key(#[trigger] self.entries@[i].0)
                &&& self.contents@[self.entries@[i].0] == self.entries@[i].1
            }
        &&& forall|k: NameHash|
            #[trigger] self.contents@.contains_key(k) ==> exists|i: int|
                0 <= i < self.entries@.len() && #[trigger] self.entries@[i].0 == k
    }

    /// An empty table.
    pub fn new() -> (r: NameTable)
        ensures
            r.wf(),
            r@ == Map::<NameHash, AccountId>::empty(),
    {
        NameTable { entries: Vec::new(), contents: Ghost(Map::empty()) }
    }

    /// The position of `key` among the entries, if it has one.
    fn find(&self, key: &NameHash) -> (r: Option<usize>)
        requires
            self.wf(),
        ensures
            match r {
                Some(i) => i < self.entries@.len() && self.entries@[i as int].0 == *key,
                None => !self@.contains_key(*key),
            },
    {
        let mut i: usize = 0;
        while i < self.entries.len()
            invariant
                self.wf(),
                0 <= i <= self.entries@.len(),
                forall|j: int| 0 <= j < i ==> self.entries@[j].0 != *key,
            decreases self.entries@.len() - i,
        {
            if self.entries[i].0 == *key {
                return Some(i);
            }
            i = i + 1;
        }
        None
    }

    /// The identity stored under `key`, if any.
    pub fn get(&self, key: &NameHash) -> (r: Option<AccountId>)
        requires
            self.wf(),
        ensures
            r == lookup(self@, *key),
    {
        match self.find(key) {
            Some(i) => Some(self.entries[i].1),
            None => None,
        }
    }

    /// Whether `key` has an entry.
    pub fn contains_key(&self, key: &NameHash) -> (r: bool)
        requires
            self.wf(),
        ensures
            r == self@.contains_key(*key),
    {
        self.find(key).is_some()
    }

    /// Stores `value` under `key` and hands back what was stored there before.
    pub fn insert(&mut self, key: NameHash, value: AccountId) -> (r: Option<AccountId>)
        requires
            old(self).wf(),
        ensures
            final(self).wf(),
            final(self)@ == old(self)@.insert(key, value),
            r == lookup(old(self)@, key),
    {
        let ghost before = self.entries@;
        match self.find(&key) {
            Some(i) => {
                let prev = self.entries[i].1;
                self.entries.set(i, (key, value));
                self.contents = Ghost(self.contents@.insert(key, value));
                proof {
                    assert forall|k: NameHash| #[trigger] self.contents@.contains_key(k) implies exists|
                        j: int,
                    |
                        0 <= j < self.entries@.len() && #[trigger] self.entries@[j].0 == k by {
                        if k != key {
                            let j = choose|j: int|
                                0 <= j < before.len() && #[trigger] before[j].0 == k;
                            assert(self.entries@[j].0 == k);
                        } else {
                            assert(self.entries@[i as int].0 == k);
                        }
                    }
                }
                Some(prev)
            },
            None => {
                self.entries.push((key, value));
                self.contents = Ghost(self.contents@.insert(key, value));
                proof {
                    assert forall|k: NameHash| #[trigger] self.contents@.contains_key(k) implies exists|
                        j: int,
                    |
                        0 <= j < self.entries@.len() && #[trigger] self.entries@[j].0 == k by {
                        if k != key {
                            let j = choose|j: int|
                                0 <= j < before.len() && #[trigger] before[j].0 == k;
                            assert(self.entries@[j].0 == k);
                        } else {
                            assert(self.entries@[before.len() as int].0 == k);
                        }
                    }
                }
                None
            },
        }
    }
}

} // verus!
