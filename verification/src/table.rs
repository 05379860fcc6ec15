//! A keyed table of records: the contents of one storage map of a contract.
use crate::primitives::TableKey;
use vstd::prelude::*;

verus! {

/// Whether no key occurs twice in `s`.
pub open spec fn keys_unique<K, V>(s: Seq<(K, V)>) -> bool {
    forall|i: int, j: int| 0 <= i < s.len() && 0 <= j < s.len() && i != j ==> s[i].0 != s[j].0
}

/// Whether `k` is the key of some entry of `s`.
pub open spec fn has_key<K, V>(s: Seq<(K, V)>, k: K) -> bool {
    exists|i: int| 0 <= i < s.len() && s[i].0 == k
}

/// The map from each key of `s` to the value stored beside it.
pub open spec fn entries_map<K, V>(s: Seq<(K, V)>) -> Map<K, V> {
    Map::new(
        |k: K| has_key(s, k),
        |k: K| s[choose|i: int| 0 <= i < s.len() && s[i].0 == k].1,
    )
}

/// In a sequence with unique keys, the entry at `i` is what the map holds for its key.
proof fn lemma_entry_in_map<K, V>(s: Seq<(K, V)>, i: int)
    requires
        keys_unique(s),
        0 <= i < s.len(),
    ensures
        entries_map(s).dom().contains(s[i].0),
        entries_map(s)[s[i].0] == s[i].1,
{
    let k = s[i].0;
    assert(has_key(s, k));
    let j = choose|j: int| 0 <= j < s.len() && s[j].0 == k;
    assert(j == i);
}

/// A table from keys to values in which each key occurs at most once.
pub struct Table<K, V> {
    entries: Vec<(K, V)>,
}

impl<K: TableKey, V: Copy> Table<K, V> {
    /// No key occurs twice.
    pub closed spec fn wf(&self) -> bool {
        keys_unique(self.entries@)
    }

    /// An empty table.
    pub fn new() -> (t: Self)
        ensures
            t.wf(),
            t@ == Map::<K, V>::empty(),
    {
        let t = Table { entries: Vec::new() };
        assert(t@ =~= Map::<K, V>::empty());
        t
    }

    /// The position of `k`, if it is present.
    fn find(&self, k: &K) -> (r: Option<usize>)
        requires
            self.wf(),
        ensures
            match r {
                Some(i) => i < self.entries@.len() && self.entries@[i as int].0 == *k,
                None => !self@.dom().contains(*k),
            },
    {
        let mut i: usize = 0;
        while i < self.entries.len()
            invariant
                0 <= i <= self.entries@.len(),
                forall|j: int| 0 <= j < i ==> self.entries@[j].0 != *k,
            decreases self.entries@.len() - i,
        {
            if self.entries[i].0.same_key(k) {
                return Some(i);
            }
            i = i + 1;
        }
        None
    }

    /// The value stored under `k`, if any.
    pub fn get(&self, k: &K) -> (r: Option<V>)
        requires
            self.wf(),
        ensures
            r == (if self@.dom().contains(*k) { Some(self@[*k]) } else { None::<V> }),
    {
        match self.find(k) {
            Some(i) => {
                proof {
                    lemma_entry_in_map(self.entries@, i as int);
                }
                Some(self.entries[i].1)
            },
            None => None,
        }
    }

    /// Whether `k` is present.
    pub fn contains_key(&self, k: &K) -> (r: bool)
        requires
            self.wf(),
        ensures
            r == self@.dom().contains(*k),
    {
        match self.find(k) {
            Some(i) => {
                proof {
                    lemma_entry_in_map(self.entries@, i as int);
                }
                true
            },
            None => false,
        }
    }

    /// Stores `v` under `k`, replacing what was there.
    pub fn insert(&mut self, k: K, v: V)
        requires
            old(self).wf(),
        ensures
            final(self).wf(),
            final(self)@ == old(self)@.insert(k, v),
    {
        let ghost old_entries = self.entries@;
        match self.find(&k) {
            Some(i) => {
                self.entries.set(i, (k, v));
                proof {
                    let s = self.entries@;
                    assert(s == old_entries.update(i as int, (k, v)));
                    assert forall|a: int, b: int|
                        0 <= a < s.len() && 0 <= b < s.len() && a != b implies s[a].0 != s[b].0 by {
                        assert(s[a].0 == old_entries[a].0);
                        assert(s[b].0 == old_entries[b].0);
                    }
                    assert forall|key: K| #[trigger] has_key(s, key) == old(self)@.insert(k, v).dom().contains(key) by {
                        if has_key(old_entries, key) {
                            let j = choose|j: int| 0 <= j < old_entries.len() && old_entries[j].0 == key;
                            assert(s[j].0 == key);
                        }
                        if has_key(s, key) {
                            let j = choose|j: int| 0 <= j < s.len() && s[j].0 == key;
                            assert(old_entries[j].0 == key);
                        }
                    }
                    assert forall|key: K| #[trigger] has_key(s, key) implies entries_map(s)[key] == old(self)@.insert(k, v)[key] by {
                        let j = choose|j: int| 0 <= j < s.len() && s[j].0 == key;
                        lemma_entry_in_map(s, j);
                        if j != i {
                            lemma_entry_in_map(old_entries, j);
                        }
                    }
                    assert(self@ =~= old(self)@.insert(k, v));
                }
            },
            None => {
                self.entries.push((k, v));
                proof {
                    let s = self.entries@;
                    assert(s == old_entries.push((k, v)));
                    let n = old_entries.len() as int;
                    assert forall|a: int, b: int|
                        0 <= a < s.len() && 0 <= b < s.len() && a != b implies s[a].0 != s[b].0 by {
                        if a == n {
                            assert(old_entries[b].0 == s[b].0);
                            if s[b].0 == k {
                                assert(has_key(old_entries, k));
                            }
                        } else if b == n {
                            assert(old_entries[a].0 == s[a].0);
                            if s[a].0 == k {
                                assert(has_key(old_entries, k));
                            }
                        }
                    }
                    assert forall|key: K| #[trigger] has_key(s, key) == old(self)@.insert(k, v).dom().contains(key) by {
                        if has_key(old_entries, key) {
                            let j = choose|j: int| 0 <= j < old_entries.len() && old_entries[j].0 == key;
                            assert(s[j].0 == key);
                        }
                        if key == k {
                            assert(s[n].0 == key);
                        }
                        if has_key(s, key) {
                            let j = choose|j: int| 0 <= j < s.len() && s[j].0 == key;
                            if j < n {
                                assert(old_entries[j].0 == key);
                            }
                        }
                    }
                    assert forall|key: K| #[trigger] has_key(s, key) implies entries_map(s)[key] == old(self)@.insert(k, v)[key] by {
                        let j = choose|j: int| 0 <= j < s.len() && s[j].0 == key;
                        lemma_entry_in_map(s, j);
                        if j < n {
                            lemma_entry_in_map(old_entries, j);
                        }
                    }
                    assert(self@ =~= old(self)@.insert(k, v));
                }
            },
        }
    }

    /// Removes whatever is stored under `k`.
    pub fn remove(&mut self, k: &K)
        requires
            old(self).wf(),
        ensures
            final(self).wf(),
            final(self)@ == old(self)@.remove(*k),
    {
        let ghost old_entries = self.entries@;
        match self.find(k) {
            Some(i) => {
                self.entries.remove(i);
                proof {
                    let s = self.entries@;
                    assert(s == old_entries.remove(i as int));
                    let ii = i as int;
                    assert forall|a: int| 0 <= a < s.len() implies s[a] == old_entries[if a < ii { a } else { a + 1 }] by {}
                    assert forall|a: int, b: int|
                        0 <= a < s.len() && 0 <= b < s.len() && a != b implies s[a].0 != s[b].0 by {
                        let a0 = if a < ii { a } else { a + 1 };
                        let b0 = if b < ii { b } else { b + 1 };
                        assert(s[a] == old_entries[a0]);
                        assert(s[b] == old_entries[b0]);
                    }
                    assert forall|key: K| #[trigger] has_key(s, key) == old(self)@.remove(*k).dom().contains(key) by {
                        if has_key(s, key) {
                            let j = choose|j: int| 0 <= j < s.len() && s[j].0 == key;
                            let j0 = if j < ii { j } else { j + 1 };
                            assert(old_entries[j0].0 == key);
                            assert(j0 != ii);
                        }
                        if has_key(old_entries, key) && key != *k {
                            let j = choose|j: int| 0 <= j < old_entries.len() && old_entries[j].0 == key;
                            assert(j != ii);
                            let j1 = if j < ii { j } else { j - 1 };
                            assert(s[j1] == old_entries[j]);
                        }
                    }
                    assert forall|key: K| #[trigger] has_key(s, key) implies entries_map(s)[key] == old(self)@.remove(*k)[key] by {
                        let j = choose|j: int| 0 <= j < s.len() && s[j].0 == key;
                        let j0 = if j < ii { j } else { j + 1 };
                        assert(s[j] == old_entries[j0]);
                        lemma_entry_in_map(s, j);
                        lemma_entry_in_map(old_entries, j0);
                    }
                    assert(self@ =~= old(self)@.remove(*k));
                }
            },
            None => {
                assert(self@ =~= old(self)@.remove(*k));
            },
        }
    }
}

impl<K: TableKey, V: Copy> View for Table<K, V> {
    type V = Map<K, V>;

    closed spec fn view(&self) -> Map<K, V> {
        entries_map(self.entries@)
    }
}

} // verus!
