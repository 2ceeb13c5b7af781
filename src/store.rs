use vstd::prelude::*;
use crate::pubkey::Pubkey;
use crate::state::StakeInfo;

verus! {

/// The key of a record: its owner and its asset.
pub open spec fn key_of(r: StakeInfo) -> (Seq<u8>, Seq<u8>) {
    (r.owner@, r.mint@)
}

/// The authoritative records, at most one per (owner, asset) pair.
pub struct StakeStore {
    records: Vec<StakeInfo>,
}

impl StakeStore {
    /// No two stored records share a key.
    pub closed spec fn wf(&self) -> bool {
        forall|i: int, j: int|
            0 <= i < self.records@.len() && 0 <= j < self.records@.len() && i != j ==> key_of(
                #[trigger] self.records@[i],
            ) != key_of(#[trigger] self.records@[j])
    }

    pub closed spec fn has_key(&self, k: (Seq<u8>, Seq<u8>)) -> bool {
        exists|i: int| 0 <= i < self.records@.len() && key_of(#[trigger] self.records@[i]) == k
    }

    /// The records, by key.
    pub closed spec fn view(&self) -> Map<(Seq<u8>, Seq<u8>), StakeInfo> {
        Map::new(
            |k: (Seq<u8>, Seq<u8>)| self.has_key(k),
            |k: (Seq<u8>, Seq<u8>)|
                self.records@[choose|i: int|
                    0 <= i < self.records@.len() && key_of(#[trigger] self.records@[i]) == k],
        )
    }

    proof fn lemma_at(&self, i: int)
        requires
            self.wf(),
            0 <= i < self.records@.len(),
        ensures
            self@.contains_key(key_of(self.records@[i])),
            self@[key_of(self.records@[i])] == self.records@[i],
    {
        let k = key_of(self.records@[i]);
        assert(self.has_key(k));
        let j = choose|j: int| 0 <= j < self.records@.len() && key_of(#[trigger] self.records@[j]) == k;
        assert(j == i);
    }

    pub fn new() -> (r: StakeStore)
        ensures
            r.wf(),
            r@ == Map::<(Seq<u8>, Seq<u8>), StakeInfo>::empty(),
    {
        let r = StakeStore { records: Vec::new() };
        assert(r@ =~= Map::<(Seq<u8>, Seq<u8>), StakeInfo>::empty());
        r
    }

    fn find(&self, owner: &Pubkey, mint: &Pubkey) -> (r: Option<usize>)
        requires
            self.wf(),
        ensures
            match r {
                Some(i) => i < self.records@.len() && key_of(self.records@[i as int]) == (
                owner@,
                mint@,
                ),
                None => !self@.contains_key((owner@, mint@)),
            },
    {
        let mut i: usize = 0;
        while i < self.records.len()
            invariant
                self.wf(),
                i <= self.records@.len(),
                forall|j: int|
                    0 <= j < i ==> key_of(#[trigger] self.records@[j]) != (owner@, mint@),
            decreases self.records@.len() - i,
        {
            if self.records[i].owner.same_as(owner) && self.records[i].mint.same_as(mint) {
                return Some(i);
            }
            i = i + 1;
        }
        None
    }

    /// The record of (owner, mint), if one was ever stored.
    pub fn get(&self, owner: &Pubkey, mint: &Pubkey) -> (r: Option<StakeInfo>)
        requires
            self.wf(),
        ensures
            r == (if self@.contains_key((owner@, mint@)) {
                Some(self@[(owner@, mint@)])
            } else {
                None::<StakeInfo>
            }),
    {
        match self.find(owner, mint) {
            Some(i) => {
                proof {
                    self.lemma_at(i as int);
                }
                Some(self.records[i])
            },
            None => None,
        }
    }

    /// Stores `record` under its key, replacing any record stored there.
    pub fn put(&mut self, record: StakeInfo)
        requires
            old(self).wf(),
        ensures
            final(self).wf(),
            final(self)@ == old(self)@.insert(key_of(record), record),
    {
        let ghost before = *self;
        match self.find(&record.owner, &record.mint) {
            Some(i) => {
                self.records.set(i, record);
                proof {
                    assert forall|k: (Seq<u8>, Seq<u8>)| #[trigger]
                        self@.contains_key(k) == old(self)@.insert(key_of(record), record).contains_key(k) by {
                        if before.has_key(k) {
                            let j = choose|j: int| 0 <= j < before.records@.len() && key_of(#[trigger] before.records@[j]) == k;
                            assert(key_of(self.records@[j]) == k);
                        }
                        if self.has_key(k) && k != key_of(record) {
                            let j = choose|j: int| 0 <= j < self.records@.len() && key_of(#[trigger] self.records@[j]) == k;
                            assert(key_of(before.records@[j]) == k);
                        }
                    }
                    assert forall|k: (Seq<u8>, Seq<u8>)| #[trigger] self@.contains_key(k) implies
                        self@[k] == old(self)@.insert(key_of(record), record)[k] by {
                        let j = choose|j: int| 0 <= j < self.records@.len() && key_of(#[trigger] self.records@[j]) == k;
                        self.lemma_at(j);
                        if j != i {
                            before.lemma_at(j);
                        } else {
                            self.lemma_at(i as int);
                        }
                    }
                    assert(self@ =~= old(self)@.insert(key_of(record), record));
                }
            },
            None => {
                self.records.push(record);
                proof {
                    let n = before.records@.len() as int;
                    assert forall|k: (Seq<u8>, Seq<u8>)| #[trigger]
                        self@.contains_key(k) == old(self)@.insert(key_of(record), record).contains_key(k) by {
                        if before.has_key(k) {
                            let j = choose|j: int| 0 <= j < before.records@.len() && key_of(#[trigger] before.records@[j]) == k;
                            assert(key_of(self.records@[j]) == k);
                        }
                        if k == key_of(record) {
                            assert(key_of(self.records@[n]) == k);
                        }
                        if self.has_key(k) && k != key_of(record) {
                            let j = choose|j: int| 0 <= j < self.records@.len() && key_of(#[trigger] self.records@[j]) == k;
                            assert(key_of(before.records@[j]) == k);
                        }
                    }
                    assert forall|k: (Seq<u8>, Seq<u8>)| #[trigger] self@.contains_key(k) implies
                        self@[k] == old(self)@.insert(key_of(record), record)[k] by {
                        let j = choose|j: int| 0 <= j < self.records@.len() && key_of(#[trigger] self.records@[j]) == k;
                        self.lemma_at(j);
                        if j != n {
                            before.lemma_at(j);
                        }
                    }
                    assert(self@ =~= old(self)@.insert(key_of(record), record));
                }
            },
        }
    }
}

} // verus!
