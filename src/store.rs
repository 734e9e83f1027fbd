use vstd::prelude::*;
use crate::types::{copy_bytes, same_bytes, ClaimRecord, RecordModel};

verus! {

/// The record held by `m` for `k`, if any.
pub open spec fn lookup(m: Map<Seq<u8>, RecordModel>, k: Seq<u8>) -> Option<RecordModel> {
    if m.contains_key(k) {
        Some(m[k])
    } else {
        None
    }
}

struct Entry {
    key: Vec<u8>,
    record: ClaimRecord,
}

/// The record store: a keyed mapping from claim bytes to claim records,
/// with point lookup, insert (overwrite) and delete. It enforces no rule of
/// its own; its view is the mapping it holds.
pub struct ProofStore {
    entries: Vec<Entry>,
    contents: Ghost<Map<Seq<u8>, RecordModel>>,
}

impl View for ProofStore {
    type V = Map<Seq<u8>, RecordModel>;

    closed spec fn view(&self) -> Map<Seq<u8>, RecordModel> {
        self.contents@
    }
}

impl ProofStore {
    spec fn key_at(&self, i: int) -> Seq<u8> {
        self.entries@[i].key@
    }

    /// Keys are unique, every entry is in the view, and the view holds
    /// nothing else.
    pub closed spec fn wf(&self) -> bool {
        &&& forall|i: int, j: int|
            0 <= i < self.entries.len() && 0 <= j < self.entries.len() && i != j
                ==> #[trigger] self.key_at(i) != #[trigger] self.key_at(j)
        &&& forall|i: int|
            0 <= i < self.entries.len() ==> {
                &&& self.contents@.contains_key(#[trigger] self.key_at(i))
                &&& self.contents@[self.key_at(i)] == self.entries@[i].record@
            }
        &&& forall|k: Seq<u8>|
            #[trigger] self.contents@.contains_key(k) ==> exists|i: int|
                0 <= i < self.entries.len() && #[trigger] self.key_at(i) == k
        &&& self.contents@.dom().finite()
        &&& self.contents@.dom().len() == self.entries.len()
    }

    pub fn new() -> (r: ProofStore)
        ensures
            r.wf(),
            r@ == Map::<Seq<u8>, RecordModel>::empty(),
    {
        ProofStore { entries: Vec::new(), contents: Ghost(Map::empty()) }
    }

    /// The position of the entry for `key`, if there is one.
    fn find(&self, key: &Vec<u8>) -> (r: Option<usize>)
        requires
            self.wf(),
        ensures
            match r {
                Some(i) => i < self.entries.len() && self.key_at(i as int) == key@,
                None => !self@.contains_key(key@),
            },
    {
        let mut i: usize = 0;
        while i < self.entries.len()
            invariant
                i <= self.entries.len(),
                forall|j: int| 0 <= j < i ==> #[trigger] self.key_at(j) != key@,
            decreases self.entries.len() - i,
        {
            if same_bytes(&self.entries[i].key, key) {
                return Some(i);
            }
            i = i + 1;
        }
        None
    }

    /// The number of records held.
    pub fn len(&self) -> (r: usize)
        requires
            self.wf(),
        ensures
            r == self@.len(),
    {
        self.entries.len()
    }

    /// Whether a record is held for `key`.
    pub fn contains_key(&self, key: &Vec<u8>) -> (r: bool)
        requires
            self.wf(),
        ensures
            r == self@.contains_key(key@),
    {
        match self.find(key) {
            Some(_) => true,
            None => false,
        }
    }

    /// The record held for `key`, if any.
    pub fn get(&self, key: &Vec<u8>) -> (r: Option<&ClaimRecord>)
        requires
            self.wf(),
        ensures
            match r {
                Some(rec) => lookup(self@, key@) == Some(rec@),
                None => lookup(self@, key@) is None,
            },
    {
        match self.find(key) {
            Some(i) => Some(&self.entries[i].record),
            None => None,
        }
    }

    /// Holds `record` for `key`, replacing any record held before.
    pub fn insert(&mut self, key: &Vec<u8>, record: ClaimRecord)
        requires
            old(self).wf(),
        ensures
            final(self).wf(),
            final(self)@ == old(self)@.insert(key@, record@),
    {
        let ghost k = key@;
        let ghost r = record@;
        let ghost m = self.contents@.insert(k, r);
        match self.find(key) {
            Some(i) => {
                self.entries.set(i, Entry { key: copy_bytes(key), record });
                self.contents = Ghost(m);
                assert(m.dom() =~= old(self).contents@.dom());
                assert(self.key_at(i as int) == k);
                assert forall|j: int| 0 <= j < self.entries.len() && j != i implies {
                    &&& #[trigger] self.key_at(j) == old(self).key_at(j)
                    &&& self.entries@[j].record@ == old(self).entries@[j].record@
                } by {}
                assert forall|k2: Seq<u8>| #[trigger] m.contains_key(k2) implies exists|j: int|
                    0 <= j < self.entries.len() && #[trigger] self.key_at(j) == k2 by {
                    if k2 != k {
                        let j = choose|j: int|
                            0 <= j < old(self).entries.len() && #[trigger] old(self).key_at(j) == k2;
                        assert(self.key_at(j) == k2);
                    }
                }
            },
            None => {
                let ghost n = self.entries.len() as int;
                self.entries.push(Entry { key: copy_bytes(key), record });
                self.contents = Ghost(m);
                assert(self.key_at(n) == k);
                assert forall|i: int| 0 <= i < n implies {
                    &&& #[trigger] self.key_at(i) == old(self).key_at(i)
                    &&& self.key_at(i) != k
                    &&& self.entries@[i].record@ == old(self).entries@[i].record@
                } by {
                    assert(old(self).key_at(i) == self.key_at(i));
                }
                assert forall|k2: Seq<u8>| #[trigger] m.contains_key(k2) implies exists|j: int|
                    0 <= j < self.entries.len() && #[trigger] self.key_at(j) == k2 by {
                    if k2 != k {
                        let j = choose|j: int|
                            0 <= j < old(self).entries.len() && #[trigger] old(self).key_at(j) == k2;
                        assert(self.key_at(j) == k2);
                    }
                }
            },
        }
    }

    /// Drops the record held for `key`; nothing happens if there is none.
    pub fn remove(&mut self, key: &Vec<u8>)
        requires
            old(self).wf(),
        ensures
            final(self).wf(),
            final(self)@ == old(self)@.remove(key@),
    {
        let ghost k = key@;
        match self.find(key) {
            Some(i) => {
                let ghost m = self.contents@.remove(k);
                self.entries.remove(i);
                self.contents = Ghost(m);
                assert forall|j: int| 0 <= j < self.entries.len() implies #[trigger] self.key_at(j)
                    == old(self).key_at(if j < i { j } else { j + 1 }) by {}
                assert forall|k2: Seq<u8>| #[trigger] m.contains_key(k2) implies exists|j: int|
                    0 <= j < self.entries.len() && #[trigger] self.key_at(j) == k2 by {
                    let j = choose|j: int|
                        0 <= j < old(self).entries.len() && #[trigger] old(self).key_at(j) == k2;
                    if j < i {
                        assert(self.key_at(j) == k2);
                    } else {
                        assert(self.key_at(j - 1) == k2);
                    }
                }
            },
            None => {
                assert(self.contents@.remove(k) =~= self.contents@);
            },
        }
    }
}

} // verus!
