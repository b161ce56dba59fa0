//! A table of values by text key, kept as a vector without repeated keys,
//! with the map it stands for as its view.

use vstd::prelude::*;
use crate::text::owned;

verus! {

broadcast use vstd::string::group_string_axioms;

/// Values by text key, as a map from each key's view to its value. No key
/// occurs twice.
pub struct KeyedTable<T> {
    entries: Vec<(String, T)>,
}

impl<T> View for KeyedTable<T> {
    type V = Map<Seq<char>, T>;

    closed spec fn view(&self) -> Self::V {
        Map::new(
            |k: Seq<char>| exists|i: int| 0 <= i < self.entries@.len() && self.entries@[i].0@ == k,
            |k: Seq<char>|
                {
                    let i = choose|i: int| 0 <= i < self.entries@.len() && self.entries@[i].0@ == k;
                    self.entries@[i].1
                },
        )
    }
}

impl<T> KeyedTable<T> {
    /// No key occurs twice.
    #[verifier::type_invariant]
    spec fn keys_unique(&self) -> bool {
        forall|i: int, j: int|
            0 <= i < self.entries@.len() && 0 <= j < self.entries@.len() && i != j
                ==> self.entries@[i].0@ != self.entries@[j].0@
    }

    proof fn lemma_view_at(&self, i: int)
        requires
            self.keys_unique(),
            0 <= i < self.entries@.len(),
        ensures
            self@.contains_key(self.entries@[i].0@),
            self@[self.entries@[i].0@] == self.entries@[i].1,
    {
        let k = self.entries@[i].0@;
        let j = choose|j: int| 0 <= j < self.entries@.len() && self.entries@[j].0@ == k;
        assert(j == i);
    }

    /// An empty table.
    pub fn new() -> (t: Self)
        ensures
            t@ == Map::<Seq<char>, T>::empty(),
    {
        let t = KeyedTable { entries: Vec::new() };
        assert(t@ =~= Map::<Seq<char>, T>::empty());
        t
    }

    fn position(&self, key: &str) -> (r: Option<usize>)
        ensures
            match r {
                Some(i) => i < self.entries@.len() && self.entries@[i as int].0@ == key@,
                None => !self@.contains_key(key@),
            },
    {
        let wanted = owned(key);
        let mut i: usize = 0;
        while i < self.entries.len()
            invariant
                wanted@ == key@,
                i <= self.entries@.len(),
                forall|j: int| 0 <= j < i ==> self.entries@[j].0@ != key@,
            decreases self.entries@.len() - i,
        {
            if self.entries[i].0 == wanted {
                return Some(i);
            }
            i = i + 1;
        }
        None
    }

    /// The value under `key`, if there is one.
    pub fn get(&self, key: &str) -> (r: Option<&T>)
        ensures
            match r {
                Some(t) => self@.contains_key(key@) && self@[key@] == *t,
                None => !self@.contains_key(key@),
            },
    {
        proof {
            use_type_invariant(self);
        }
        match self.position(key) {
            Some(i) => {
                proof {
                    self.lemma_view_at(i as int);
                }
                Some(&self.entries[i].1)
            },
            None => None,
        }
    }

    /// Puts `value` under `key`, replacing the value it had.
    pub fn insert(&mut self, key: String, value: T)
        ensures
            final(self)@ == old(self)@.insert(key@, value),
    {
        proof {
            use_type_invariant(&*self);
        }
        let ghost before = self@;
        let ghost old_entries = self.entries@;
        let ghost k0 = key@;
        let found = self.position(key.as_str());
        let mut entries: Vec<(String, T)> = Vec::new();
        std::mem::swap(&mut entries, &mut self.entries);
        match found {
            Some(i) => {
                entries.set(i, (key, value));
                assert forall|j: int| 0 <= j < entries@.len() implies #[trigger] entries@[j].0@
                    == old_entries[j].0@ by {}
            },
            None => {
                entries.push((key, value));
                assert forall|j: int| 0 <= j < old_entries.len() implies old_entries[j].0@
                    != k0 by {
                    if old_entries[j].0@ == k0 {
                        assert(before.contains_key(k0));
                    }
                }
                assert forall|j: int| 0 <= j < old_entries.len() implies #[trigger] entries@[j]
                    == old_entries[j] by {}
            },
        }
        self.entries = entries;
        proof {
            use_type_invariant(&*self);
            let n = old_entries.len();
            assert forall|k: Seq<char>| #[trigger] self@.contains_key(k) <==> before.insert(k0, value).contains_key(k) by {
                if k != k0 {
                    if before.contains_key(k) {
                        let j = choose|j: int| 0 <= j < old_entries.len() && old_entries[j].0@ == k;
                        assert(self.entries@[j].0@ == k);
                    }
                    if self@.contains_key(k) {
                        let j = choose|j: int| 0 <= j < self.entries@.len() && self.entries@[j].0@ == k;
                        assert(j < n);
                        assert(old_entries[j].0@ == k);
                    }
                } else {
                    match found {
                        Some(i) => assert(self.entries@[i as int].0@ == k),
                        None => assert(self.entries@[n as int].0@ == k),
                    }
                }
            }
            assert forall|k: Seq<char>| #[trigger] self@.contains_key(k) implies self@[k] == before.insert(k0, value)[k] by {
                let j = choose|j: int| 0 <= j < self.entries@.len() && self.entries@[j].0@ == k;
                self.lemma_view_at(j);
                if k != k0 {
                    assert(j < n);
                    old(self).lemma_view_at(j);
                } else {
                    match found {
                        Some(i) => assert(j == i),
                        None => assert(j == n),
                    }
                }
            }
            assert(self@ =~= before.insert(k0, value));
        }
    }

    /// Removes `key` and its value.
    pub fn remove(&mut self, key: &str)
        ensures
            final(self)@ == old(self)@.remove(key@),
    {
        proof {
            use_type_invariant(&*self);
        }
        let ghost before = self@;
        let ghost old_e = self.entries@;
        match self.position(key) {
            Some(i) => {
                let mut entries: Vec<(String, T)> = Vec::new();
                std::mem::swap(&mut entries, &mut self.entries);
                entries.remove(i);
                assert forall|j: int| 0 <= j < entries@.len() implies #[trigger] entries@[j]
                    == (if j < i { old_e[j] } else { old_e[j + 1] }) by {}
                self.entries = entries;
                proof {
                    use_type_invariant(&*self);
                    assert forall|k: Seq<char>| #[trigger] self@.contains_key(k) <==> before.remove(key@).contains_key(k) by {
                        if self@.contains_key(k) {
                            let j = choose|j: int| 0 <= j < self.entries@.len() && self.entries@[j].0@ == k;
                            if j < i {
                                assert(old_e[j].0@ == k);
                            } else {
                                assert(old_e[j + 1].0@ == k);
                            }
                        }
                        if before.remove(key@).contains_key(k) {
                            let j = choose|j: int| 0 <= j < old_e.len() && old_e[j].0@ == k;
                            assert(j != i);
                            if j < i {
                                assert(self.entries@[j].0@ == k);
                            } else {
                                assert(self.entries@[j - 1].0@ == k);
                            }
                        }
                    }
                    assert forall|k: Seq<char>| #[trigger] self@.contains_key(k) implies self@[k] == before.remove(key@)[k] by {
                        let j = choose|j: int| 0 <= j < self.entries@.len() && self.entries@[j].0@ == k;
                        self.lemma_view_at(j);
                        if j < i {
                            old(self).lemma_view_at(j);
                        } else {
                            old(self).lemma_view_at(j + 1);
                        }
                    }
                    assert(self@ =~= before.remove(key@));
                }
            },
            None => {
                assert(self@ =~= before.remove(key@));
            },
        }
    }

    /// All keys, each once.
    pub fn keys(&self) -> (r: Vec<String>)
        ensures
            forall|k: Seq<char>| self@.contains_key(k) <==> exists|i: int| 0 <= i < r@.len() && #[trigger] r@[i]@ == k,
            forall|i: int, j: int| 0 <= i < r@.len() && 0 <= j < r@.len() && i != j ==> r@[i]@ != r@[j]@,
    {
        proof {
            use_type_invariant(self);
        }
        let mut r: Vec<String> = Vec::new();
        let mut i: usize = 0;
        while i < self.entries.len()
            invariant
                i <= self.entries@.len(),
                r@.len() == i,
                forall|j: int| 0 <= j < i ==> #[trigger] r@[j]@ == self.entries@[j].0@,
            decreases self.entries@.len() - i,
        {
            r.push(self.entries[i].0.clone());
            i = i + 1;
        }
        assert forall|k: Seq<char>| self@.contains_key(k) implies exists|i: int| 0 <= i < r@.len() && #[trigger] r@[i]@ == k by {
            let j = choose|j: int| 0 <= j < self.entries@.len() && self.entries@[j].0@ == k;
            assert(r@[j]@ == k);
        }
        r
    }
}

} // verus!
