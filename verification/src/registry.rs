//! A small table keyed by text, seen by contracts as a finite map.

use vstd::prelude::*;

verus! {

/// Values of type `T` filed under text keys, no key twice.
pub struct Registry<T> {
    entries: Vec<(String, T)>,
}

/// The keys of `entries`, in their order.
pub open spec fn entry_keys<T>(entries: Seq<(String, T)>) -> Seq<Seq<char>> {
    Seq::new(entries.len(), |i: int| entries[i].0@)
}

/// No key occurs at two places.
pub open spec fn keys_distinct(keys: Seq<Seq<char>>) -> bool {
    forall|i: int, j: int| 0 <= i < keys.len() && 0 <= j < keys.len() && i != j ==> keys[i] != keys[j]
}

proof fn lemma_index_of_distinct(keys: Seq<Seq<char>>, i: int)
    requires
        keys_distinct(keys),
        0 <= i < keys.len(),
    ensures
        keys.index_of(keys[i]) == i,
        keys.contains(keys[i]),
{
    assert(keys.contains(keys[i]));
    let j = keys.index_of(keys[i]);
    assert(0 <= j < keys.len() && keys[j] == keys[i]);
}

impl<T> Registry<T> {
    /// No key is filed twice. Every table that the functions below hand out
    /// is well formed.
    pub closed spec fn wf(&self) -> bool {
        keys_distinct(entry_keys(self.entries@))
    }
}

impl<T> Registry<T> {
    /// The values as they are held, by key.
    pub closed spec fn held(&self) -> Map<Seq<char>, T> {
        let keys = entry_keys(self.entries@);
        Map::new(|k: Seq<char>| keys.contains(k), |k: Seq<char>| self.entries@[keys.index_of(k)].1)
    }
}

impl<T: View> View for Registry<T> {
    type V = Map<Seq<char>, T::V>;

    open spec fn view(&self) -> Map<Seq<char>, T::V> {
        Map::new(|k: Seq<char>| self.held().contains_key(k), |k: Seq<char>| self.held()[k]@)
    }
}

impl<T: View> Registry<T> {
    /// A table without entries.
    pub fn new() -> (table: Self)
        ensures
            table.wf(),
            table.held() == Map::<Seq<char>, T>::empty(),
            table@ == Map::<Seq<char>, T::V>::empty(),
    {
        let table = Registry { entries: Vec::new() };
        assert(table.held() =~= Map::<Seq<char>, T>::empty());
        assert(table@ =~= Map::<Seq<char>, T::V>::empty());
        table
    }

    /// The number of entries.
    pub fn len(&self) -> (n: usize)
        requires
            self.wf(),
        ensures
            n == self@.len(),
            self@.dom().finite(),
    {
        proof {
            self.lemma_domain();
        }
        self.entries.len()
    }

    proof fn lemma_domain(&self)
        requires
            keys_distinct(entry_keys(self.entries@)),
        ensures
            self@.dom() == entry_keys(self.entries@).to_set(),
            self@.dom().finite(),
            self@.len() == self.entries@.len(),
    {
        let keys = entry_keys(self.entries@);
        assert(self.held().dom() =~= keys.to_set());
        assert(self@.dom() =~= keys.to_set());
        vstd::seq_lib::seq_to_set_is_finite(keys);
        assert(keys.no_duplicates());
        keys.unique_seq_to_set();
    }

    fn position(&self, key: &String) -> (at: Option<usize>)
        ensures
            match at {
                Some(i) => i < self.entries.len() && self.entries[i as int].0@ == key@,
                None => !entry_keys(self.entries@).contains(key@),
            },
    {
        let mut i: usize = 0;
        while i < self.entries.len()
            invariant
                i <= self.entries.len(),
                forall|j: int| 0 <= j < i ==> self.entries[j].0@ != key@,
            decreases self.entries.len() - i,
        {
            if self.entries[i].0 == *key {
                return Some(i);
            }
            i += 1;
        }
        None
    }

    /// Whether `key` has an entry.
    pub fn contains_key(&self, key: &String) -> (found: bool)
        ensures
            found == self@.contains_key(key@),
    {
        match self.position(key) {
            Some(i) => {
                assert(entry_keys(self.entries@)[i as int] == key@);
                true
            },
            None => false,
        }
    }

    /// The value filed under `key`.
    pub fn get(&self, key: &String) -> (value: Option<&T>)
        requires
            self.wf(),
        ensures
            match value {
                Some(v) => self.held().contains_key(key@) && self.held()[key@] == *v,
                None => !self.held().contains_key(key@),
            },
            value is Some == self@.contains_key(key@),
            value is Some ==> self@[key@] == value.unwrap()@,
    {
        match self.position(key) {
            Some(i) => {
                proof {
                    lemma_index_of_distinct(entry_keys(self.entries@), i as int);
                }
                Some(&self.entries[i].1)
            },
            None => None,
        }
    }

    /// Files `value` under `key`, in place of what was filed there.
    pub fn insert(&mut self, key: String, value: T)
        requires
            old(self).wf(),
        ensures
            final(self).wf(),
            final(self).held() == old(self).held().insert(key@, value),
            final(self)@ == old(self)@.insert(key@, value@),
    {
        let ghost before = self.entries@;
        let ghost keys = entry_keys(before);
        let ghost k = key@;
        let ghost v = value;
        let at = self.position(&key);
        match at {
            Some(i) => {
                let _ = self.entries.remove(i);
                self.entries.insert(i, (key, value));
                proof {
                    let after = self.entries@;
                    assert(after.len() == before.len());
                    assert(after[i as int].0@ == k && after[i as int].1 == v);
                    assert(forall|j: int| 0 <= j < after.len() && j != i ==> after[j] == before[j]);
                    assert(entry_keys(after) =~= keys);
                    assert(keys[i as int] == k);
                    lemma_index_of_distinct(keys, i as int);
                    assert forall|q: Seq<char>| keys.contains(q) implies (
                    #[trigger] self.held()[q]) == old(self).held().insert(k, v)[q] by {
                        let j = keys.index_of(q);
                        assert(keys[j] == q);
                    }
                    assert(self.held() =~= old(self).held().insert(k, v));
                    assert(self@ =~= old(self)@.insert(k, v@));
                }
            },
            None => {
                self.entries.push((key, value));
                proof {
                    let after = self.entries@;
                    let keys2 = entry_keys(after);
                    assert(keys2 =~= keys.push(k));
                    assert(keys_distinct(keys2));
                    assert forall|q: Seq<char>| keys2.contains(q) == (keys.contains(q) || q == k) by {
                        if keys.contains(q) {
                            let j = keys.index_of(q);
                            assert(keys2[j] == q);
                        }
                        if q == k {
                            assert(keys2[keys.len() as int] == q);
                        }
                    }
                    assert forall|q: Seq<char>| keys2.contains(q) implies (
                    #[trigger] self.held()[q]) == old(self).held().insert(k, v)[q] by {
                        let j = keys2.index_of(q);
                        if q == k {
                            lemma_index_of_distinct(keys2, keys.len() as int);
                        } else {
                            assert(keys.contains(q));
                            let j0 = keys.index_of(q);
                            assert(keys2[j0] == q);
                            lemma_index_of_distinct(keys2, j0);
                        }
                    }
                    assert(self.held() =~= old(self).held().insert(k, v));
                    assert(self@ =~= old(self)@.insert(k, v@));
                }
            },
        }
    }

    /// Takes out what is filed under `key`.
    pub fn remove(&mut self, key: &String) -> (value: Option<T>)
        requires
            old(self).wf(),
        ensures
            final(self).wf(),
            final(self).held() == old(self).held().remove(key@),
            final(self)@ == old(self)@.remove(key@),
            match value {
                Some(v) => old(self).held().contains_key(key@) && old(self).held()[key@] == v,
                None => !old(self).held().contains_key(key@),
            },
    {
        let ghost before = self.entries@;
        let ghost keys = entry_keys(before);
        let ghost k = key@;
        match self.position(key) {
            Some(i) => {
                proof {
                    lemma_index_of_distinct(keys, i as int);
                }
                let entry = self.entries.remove(i);
                proof {
                    let after = self.entries@;
                    let keys2 = entry_keys(after);
                    assert(keys2 =~= keys.remove(i as int));
                    assert(keys_distinct(keys2));
                    assert forall|q: Seq<char>| keys2.contains(q) == (keys.contains(q) && q != k) by {
                        if keys2.contains(q) {
                            let j = keys2.index_of(q);
                            if j < i {
                                assert(keys[j] == q);
                            } else {
                                assert(keys[j + 1] == q);
                            }
                        }
                        if keys.contains(q) && q != k {
                            let j = keys.index_of(q);
                            if j < i {
                                assert(keys2[j] == q);
                            } else {
                                assert(keys2[j - 1] == q);
                            }
                        }
                    }
                    assert forall|q: Seq<char>| keys2.contains(q) implies (
                    #[trigger] self.held()[q]) == old(self).held()[q] by {
                        let j = keys2.index_of(q);
                        if j < i {
                            lemma_index_of_distinct(keys, j);
                        } else {
                            lemma_index_of_distinct(keys, j + 1);
                        }
                    }
                    assert(self.held() =~= old(self).held().remove(k));
                    assert(self@ =~= old(self)@.remove(k));
                }
                Some(entry.1)
            },
            None => {
                assert(self.held() =~= old(self).held().remove(k));
                assert(self@ =~= old(self)@.remove(k));
                None
            },
        }
    }
}

} // verus!
