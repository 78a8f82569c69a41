use vstd::prelude::*;
use crate::bytes::bytes_equal;

verus! {

/// A byte-keyed store: each key holds one value.
///
/// The entries are kept as a list in which no key occurs twice.
#[derive(Clone)]
pub struct Storage {
    entries: Vec<(Vec<u8>, Vec<u8>)>,
}

impl Storage {
    spec fn holds_key_at(&self, i: int, k: Seq<u8>) -> bool {
        0 <= i < self.entries@.len() && self.entries@[i].0@ == k
    }

    /// No key occurs twice.
    pub closed spec fn wf(&self) -> bool {
        forall|i: int, j: int|
            0 <= i < self.entries@.len() && 0 <= j < self.entries@.len() && i != j
                ==> #[trigger] self.entries@[i].0@ != #[trigger] self.entries@[j].0@
    }

    /// The stored mapping from keys to values.
    pub closed spec fn view(&self) -> Map<Seq<u8>, Seq<u8>> {
        Map::new(
            |k: Seq<u8>| exists|i: int| self.holds_key_at(i, k),
            |k: Seq<u8>| self.entries@[choose|i: int| self.holds_key_at(i, k)].1@,
        )
    }

    proof fn lemma_value_at(&self, i: int)
        requires
            self.wf(),
            0 <= i < self.entries@.len(),
        ensures
            self@.contains_key(self.entries@[i].0@),
            self@[self.entries@[i].0@] == self.entries@[i].1@,
    {
        let k = self.entries@[i].0@;
        assert(self.holds_key_at(i, k));
        let j = choose|j: int| self.holds_key_at(j, k);
        assert(self.entries@[j].0@ == self.entries@[i].0@);
    }

    /// An empty store.
    pub fn new() -> (r: Storage)
        ensures
            r.wf(),
            r@ == Map::<Seq<u8>, Seq<u8>>::empty(),
    {
        let r = Storage { entries: Vec::new() };
        assert(r@ =~= Map::<Seq<u8>, Seq<u8>>::empty());
        r
    }

    fn find(&self, key: &[u8]) -> (r: Option<usize>)
        ensures
            match r {
                Some(i) => self.holds_key_at(i as int, key@),
                None => forall|i: int| !#[trigger] self.holds_key_at(i, key@),
            },
    {
        let mut i: usize = 0;
        while i < self.entries.len()
            invariant
                i <= self.entries@.len(),
                forall|j: int| 0 <= j < i ==> !#[trigger] self.holds_key_at(j, key@),
            decreases self.entries@.len() - i,
        {
            if bytes_equal(self.entries[i].0.as_slice(), key) {
                return Some(i);
            }
            i = i + 1;
        }
        None
    }

    /// Whether `key` holds a value.
    pub fn contains_key(&self, key: &[u8]) -> (r: bool)
        requires
            self.wf(),
        ensures
            r == self@.contains_key(key@),
    {
        match self.find(key) {
            Some(i) => {
                proof { self.lemma_value_at(i as int); }
                true
            },
            None => false,
        }
    }

    /// The value held at `key`, if any.
    pub fn get(&self, key: &[u8]) -> (r: Option<&Vec<u8>>)
        requires
            self.wf(),
        ensures
            r.is_some() == self@.contains_key(key@),
            r.is_some() ==> r.unwrap()@ == self@[key@],
    {
        match self.find(key) {
            Some(i) => {
                proof { self.lemma_value_at(i as int); }
                Some(&self.entries[i].1)
            },
            None => None,
        }
    }

    /// Stores `value` at `key`, replacing what was there.
    pub fn set(&mut self, key: Vec<u8>, value: Vec<u8>)
        requires
            old(self).wf(),
        ensures
            final(self).wf(),
            final(self)@ == old(self)@.insert(key@, value@),
    {
        let ghost k = key@;
        let ghost v = value@;
        match self.find(key.as_slice()) {
            Some(i) => {
                self.entries.set(i, (key, value));
                proof {
                    let new_map = self@;
                    let expected = old(self)@.insert(k, v);
                    assert forall|k2: Seq<u8>| new_map.contains_key(k2) == expected.contains_key(k2)
                        by {
                        if k2 != k {
                            if new_map.contains_key(k2) {
                                let j = choose|j: int| self.holds_key_at(j, k2);
                                assert(old(self).holds_key_at(j, k2));
                            }
                            if old(self)@.contains_key(k2) {
                                let j = choose|j: int| old(self).holds_key_at(j, k2);
                                assert(self.holds_key_at(j, k2));
                            }
                        } else {
                            assert(self.holds_key_at(i as int, k));
                        }
                    }
                    assert forall|k2: Seq<u8>| #[trigger] new_map.contains_key(k2) implies new_map[k2]
                        == expected[k2] by {
                        let j = choose|j: int| self.holds_key_at(j, k2);
                        self.lemma_value_at(j);
                        if k2 != k {
                            assert(old(self).holds_key_at(j, k2));
                            old(self).lemma_value_at(j);
                        }
                    }
                    assert(new_map =~= expected);
                }
            },
            None => {
                self.entries.push((key, value));
                proof {
                    let n = self.entries@.len() - 1;
                    assert forall|a: int, b: int|
                        0 <= a < self.entries@.len() && 0 <= b < self.entries@.len() && a != b
                            implies #[trigger] self.entries@[a].0@ != #[trigger] self.entries@[b].0@
                        by {
                        if a == n {
                            assert(!old(self).holds_key_at(b, k));
                        } else if b == n {
                            assert(!old(self).holds_key_at(a, k));
                        }
                    }
                    let new_map = self@;
                    let expected = old(self)@.insert(k, v);
                    assert forall|k2: Seq<u8>| new_map.contains_key(k2) == expected.contains_key(k2)
                        by {
                        if k2 != k {
                            if new_map.contains_key(k2) {
                                let j = choose|j: int| self.holds_key_at(j, k2);
                                assert(old(self).holds_key_at(j, k2));
                            }
                            if old(self)@.contains_key(k2) {
                                let j = choose|j: int| old(self).holds_key_at(j, k2);
                                assert(self.holds_key_at(j, k2));
                            }
                        } else {
                            assert(self.holds_key_at(n, k));
                        }
                    }
                    assert forall|k2: Seq<u8>| #[trigger] new_map.contains_key(k2) implies new_map[k2]
                        == expected[k2] by {
                        let j = choose|j: int| self.holds_key_at(j, k2);
                        self.lemma_value_at(j);
                        if k2 != k {
                            assert(old(self).holds_key_at(j, k2));
                            old(self).lemma_value_at(j);
                        }
                    }
                    assert(new_map =~= expected);
                }
            },
        }
    }

    /// Removes `key` and its value; tells whether the key was there.
    pub fn delete(&mut self, key: &[u8]) -> (r: bool)
        requires
            old(self).wf(),
        ensures
            final(self).wf(),
            r == old(self)@.contains_key(key@),
            final(self)@ == old(self)@.remove(key@),
    {
        match self.find(key) {
            Some(i) => {
                proof { old(self).lemma_value_at(i as int); }
                let _removed = self.entries.remove(i);
                proof {
                    let new_map = self@;
                    let expected = old(self)@.remove(key@);
                    assert forall|j: int| 0 <= j < self.entries@.len() implies
                        #[trigger] self.entries@[j] == old(self).entries@[if j < i { j } else { j + 1 }]
                        by {}
                    assert forall|k2: Seq<u8>| new_map.contains_key(k2) == expected.contains_key(k2)
                        by {
                        if new_map.contains_key(k2) {
                            let j = choose|j: int| self.holds_key_at(j, k2);
                            let oj = if j < i { j } else { j + 1 };
                            assert(old(self).holds_key_at(oj, k2));
                            assert(oj != i);
                        }
                        if expected.contains_key(k2) {
                            let j = choose|j: int| old(self).holds_key_at(j, k2);
                            assert(j != i);
                            let nj = if j < i { j } else { j - 1 };
                            assert(self.holds_key_at(nj, k2));
                        }
                    }
                    assert forall|k2: Seq<u8>| #[trigger] new_map.contains_key(k2) implies new_map[k2]
                        == expected[k2] by {
                        let j = choose|j: int| self.holds_key_at(j, k2);
                        self.lemma_value_at(j);
                        let oj = if j < i { j } else { j + 1 };
                        assert(old(self).holds_key_at(oj, k2));
                        old(self).lemma_value_at(oj);
                    }
                    assert(new_map =~= expected);
                }
                true
            },
            None => {
                proof {
                    assert(!old(self)@.contains_key(key@));
                    assert(self@ =~= old(self)@.remove(key@));
                }
                false
            },
        }
    }
}

} // verus!
