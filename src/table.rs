use vstd::prelude::*;

verus! {

/// A key of a table: two keys are the same exactly when their views are.
pub trait TableKey: View + Sized {
    fn same_key(&self, other: &Self) -> (r: bool)
        ensures
            r == (self@ == other@),
    ;
}

/// One stored record and the key it is kept under.
pub struct Entry<K, P> {
    pub key: K,
    pub data: P,
}

/// A store of records keyed by `K`, with create-or-update writes:
/// at most one record per key.
pub struct Table<K, P> {
    entries: Vec<Entry<K, P>>,
}

impl<K: TableKey, P> Table<K, P> {
    /// No two entries share a key.
    pub closed spec fn wf(&self) -> bool {
        forall|i: int, j: int|
            0 <= i < j < self.entries@.len() ==> self.entries@[i].key@ != self.entries@[j].key@
    }

    spec fn holds_at(&self, k: K::V, i: int) -> bool {
        0 <= i < self.entries@.len() && self.entries@[i].key@ == k
    }

    /// The records, by key.
    pub closed spec fn view(&self) -> Map<K::V, P> {
        Map::new(
            |k: K::V| exists|i: int| self.holds_at(k, i),
            |k: K::V| self.entries@[choose|i: int| self.holds_at(k, i)].data,
        )
    }

    proof fn lemma_at(&self, i: int)
        requires
            self.wf(),
            0 <= i < self.entries@.len(),
        ensures
            self@.contains_key(self.entries@[i].key@),
            self@[self.entries@[i].key@] == self.entries@[i].data,
    {
        let k = self.entries@[i].key@;
        assert(self.holds_at(k, i));
        let j = choose|j: int| self.holds_at(k, j);
        assert(self.holds_at(k, j));
        assert(j == i);
    }

    pub fn new() -> (r: Table<K, P>)
        ensures
            r.wf(),
            r@ == Map::<K::V, P>::empty(),
    {
        let r = Table { entries: Vec::new() };
        assert(r@ =~= Map::<K::V, P>::empty());
        r
    }

    fn position(&self, key: &K) -> (r: Option<usize>)
        requires
            self.wf(),
        ensures
            match r {
                Some(i) => self.holds_at(key@, i as int),
                None => !self@.contains_key(key@),
            },
    {
        let mut i: usize = 0;
        while i < self.entries.len()
            invariant
                i <= self.entries@.len(),
                forall|j: int| 0 <= j < i ==> self.entries@[j].key@ != key@,
            decreases self.entries@.len() - i,
        {
            if self.entries[i].key.same_key(key) {
                return Some(i);
            }
            i = i + 1;
        }
        None
    }

    /// The record kept under `key`, if there is one.
    pub fn get(&self, key: &K) -> (r: Option<&P>)
        requires
            self.wf(),
        ensures
            match r {
                Some(p) => self@.contains_key(key@) && *p == self@[key@],
                None => !self@.contains_key(key@),
            },
    {
        match self.position(key) {
            Some(i) => {
                proof {
                    self.lemma_at(i as int);
                }
                Some(&self.entries[i].data)
            },
            None => None,
        }
    }

    pub fn contains(&self, key: &K) -> (r: bool)
        requires
            self.wf(),
        ensures
            r == self@.contains_key(key@),
    {
        match self.position(key) {
            Some(i) => {
                proof {
                    self.lemma_at(i as int);
                }
                true
            },
            None => false,
        }
    }

    /// Stores `data` under `key`: a new record, or in place of the old one.
    pub fn upsert(&mut self, key: K, data: P)
        requires
            old(self).wf(),
        ensures
            final(self).wf(),
            final(self)@ == old(self)@.insert(key@, data),
    {
        let k = Ghost(key@);
        match self.position(&key) {
            Some(i) => {
                let ghost before = *self;
                self.entries.set(i, Entry { key, data });
                proof {
                    assert forall|k2: K::V, j: int| self.holds_at(k2, j) == before.holds_at(k2, j) by {}
                    assert forall|k2: K::V| #![auto] k2 != k@ && before@.contains_key(k2)
                        implies self@[k2] == before@[k2] by {
                        let j = choose|j: int| before.holds_at(k2, j);
                        assert(self.holds_at(k2, j));
                        before.lemma_at(j);
                        self.lemma_at(j);
                    }
                    assert forall|k2: K::V| self@.contains_key(k2) implies before@.contains_key(k2) by {
                        let j = choose|j: int| self.holds_at(k2, j);
                        assert(before.holds_at(k2, j));
                    }
                    assert forall|k2: K::V| before@.contains_key(k2) implies self@.contains_key(k2) by {
                        let j = choose|j: int| before.holds_at(k2, j);
                        assert(self.holds_at(k2, j));
                    }
                    self.lemma_at(i as int);
                    before.lemma_at(i as int);
                    assert(self@ =~= before@.insert(k@, data));
                }
            },
            None => {
                let ghost before = *self;
                proof {
                    assert forall|j: int| 0 <= j < before.entries@.len() implies
                        before.entries@[j].key@ != k@ by {
                        if before.entries@[j].key@ == k@ {
                            assert(before.holds_at(k@, j));
                        }
                    }
                }
                self.entries.push(Entry { key, data });
                proof {
                    let n = before.entries@.len() as int;
                    assert(self.wf());
                    assert forall|k2: K::V, j: int| k2 != k@ implies
                        self.holds_at(k2, j) == before.holds_at(k2, j) by {}
                    assert forall|k2: K::V| #![auto] k2 != k@ && before@.contains_key(k2)
                        implies self@[k2] == before@[k2] by {
                        let j = choose|j: int| before.holds_at(k2, j);
                        assert(self.holds_at(k2, j));
                        before.lemma_at(j);
                        self.lemma_at(j);
                    }
                    assert forall|k2: K::V| k2 != k@ && self@.contains_key(k2) implies before@.contains_key(k2) by {
                        let j = choose|j: int| self.holds_at(k2, j);
                        assert(before.holds_at(k2, j));
                    }
                    assert forall|k2: K::V| before@.contains_key(k2) implies self@.contains_key(k2) by {
                        let j = choose|j: int| before.holds_at(k2, j);
                        assert(self.holds_at(k2, j));
                    }
                    self.lemma_at(n);
                    assert(self@ =~= before@.insert(k@, data));
                }
            },
        }
    }
}

} // verus!
