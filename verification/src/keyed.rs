//! A list of entries keyed by name, each name at most once, in insertion order.
//! It backs the registries of tools and skills.

use vstd::prelude::*;

use crate::text::str_equal;

verus! {

/// Entries keyed by name; a name occurs at most once.
pub struct KeyedList<V> {
    entries: Vec<(String, V)>,
    model: Ghost<Map<Seq<char>, V>>,
}

impl<V> View for KeyedList<V> {
    type V = Map<Seq<char>, V>;

    /// The entries by name.
    closed spec fn view(&self) -> Map<Seq<char>, V> {
        self.model@
    }
}

impl<V> KeyedList<V> {
    /// The internal consistency of the list.
    pub closed spec fn wf(&self) -> bool {
        &&& forall|i: int, j: int|
            0 <= i < self.entries@.len() && 0 <= j < self.entries@.len() && i != j
                ==> self.entries@[i].0@ != self.entries@[j].0@
        &&& forall|i: int|
            0 <= i < self.entries@.len() ==> self.model@.contains_key(#[trigger] self.entries@[i].0@)
                && self.model@[self.entries@[i].0@] == self.entries@[i].1
        &&& forall|k: Seq<char>|
            #[trigger] self.model@.contains_key(k) ==> exists|i: int|
                0 <= i < self.entries@.len() && self.entries@[i].0@ == k
        &&& self.model@.dom().finite()
        &&& self.model@.dom().len() == self.entries@.len()
    }

    /// The names in insertion order.
    pub closed spec fn names(&self) -> Seq<Seq<char>> {
        self.entries@.map_values(|e: (String, V)| e.0@)
    }

    /// An empty list.
    pub fn new() -> (l: KeyedList<V>)
        ensures
            l.wf(),
            l@ == Map::<Seq<char>, V>::empty(),
    {
        KeyedList { entries: Vec::new(), model: Ghost(Map::empty()) }
    }

    /// The position of `name`.
    fn find_index(&self, name: &str) -> (r: Option<usize>)
        requires
            self.wf(),
        ensures
            r matches Some(i) ==> i < self.entries@.len() && self.entries@[i as int].0@ == name@,
            r is None <==> !self@.contains_key(name@),
    {
        let mut i: usize = 0;
        while i < self.entries.len()
            invariant
                self.wf(),
                i <= self.entries@.len(),
                forall|j: int| 0 <= j < i ==> self.entries@[j].0@ != name@,
            decreases self.entries.len() - i,
        {
            if str_equal(self.entries[i].0.as_str(), name) {
                return Some(i);
            }
            i = i + 1;
        }
        proof {
            if self@.contains_key(name@) {
                let j = choose|j: int| 0 <= j < self.entries@.len() && self.entries@[j].0@ == name@;
                assert(self.entries@[j].0@ == name@);
            }
        }
        None
    }

    /// Whether `name` has an entry.
    pub fn contains(&self, name: &str) -> (b: bool)
        requires
            self.wf(),
        ensures
            b == self@.contains_key(name@),
    {
        self.find_index(name).is_some()
    }

    /// The entry of `name`.
    pub fn get(&self, name: &str) -> (r: Option<&V>)
        requires
            self.wf(),
        ensures
            r matches Some(v) ==> self@.contains_key(name@) && *v == self@[name@],
            r is None ==> !self@.contains_key(name@),
    {
        match self.find_index(name) {
            Some(i) => Some(&self.entries[i].1),
            None => None,
        }
    }

    /// Sets the entry of `name` to `value`, replacing any entry it had.
    pub fn insert(&mut self, name: String, value: V)
        requires
            old(self).wf(),
        ensures
            final(self).wf(),
            final(self)@ == old(self)@.insert(name@, value),
    {
        let ghost k = name@;
        let ghost v = value;
        let ghost old_e = self.entries@;
        match self.find_index(name.as_str()) {
            Some(i) => {
                self.entries.set(i, (name, value));
                proof {
                    self.model@ = self.model@.insert(k, v);
                    assert(self.model@.dom() =~= old(self).model@.dom());
                    assert forall|j: int| 0 <= j < self.entries@.len() implies self.model@.contains_key(
                        #[trigger] self.entries@[j].0@,
                    ) && self.model@[self.entries@[j].0@] == self.entries@[j].1 by {
                        if j != i {
                            assert(self.entries@[j] == old_e[j]);
                        }
                    }
                    assert forall|key: Seq<char>| #[trigger] self.model@.contains_key(key) implies exists|
                        j: int,
                    | 0 <= j < self.entries@.len() && self.entries@[j].0@ == key by {
                        let j = choose|j: int| 0 <= j < old_e.len() && old_e[j].0@ == key;
                        assert(self.entries@[j].0@ == key);
                    }
                    assert forall|a: int, b: int|
                        0 <= a < self.entries@.len() && 0 <= b < self.entries@.len() && a != b
                            implies self.entries@[a].0@ != self.entries@[b].0@ by {
                        if a != i {
                            assert(self.entries@[a] == old_e[a]);
                        }
                        if b != i {
                            assert(self.entries@[b] == old_e[b]);
                        }
                    }
                }
            },
            None => {
                let n = self.entries.len();
                self.entries.push((name, value));
                proof {
                    self.model@ = self.model@.insert(k, v);
                    assert forall|a: int, b: int|
                        0 <= a < self.entries@.len() && 0 <= b < self.entries@.len() && a != b
                            implies self.entries@[a].0@ != self.entries@[b].0@ by {
                        if a < n && b < n {
                            assert(self.entries@[a] == old_e[a]);
                            assert(self.entries@[b] == old_e[b]);
                        } else if a < n {
                            assert(self.entries@[a] == old_e[a]);
                            assert(old(self).model@.contains_key(old_e[a].0@));
                        } else if b < n {
                            assert(self.entries@[b] == old_e[b]);
                            assert(old(self).model@.contains_key(old_e[b].0@));
                        }
                    }
                    assert forall|j: int| 0 <= j < self.entries@.len() implies self.model@.contains_key(
                        #[trigger] self.entries@[j].0@,
                    ) && self.model@[self.entries@[j].0@] == self.entries@[j].1 by {
                        if j < n {
                            assert(self.entries@[j] == old_e[j]);
                            assert(old(self).model@.contains_key(old_e[j].0@));
                        }
                    }
                    assert forall|key: Seq<char>| #[trigger] self.model@.contains_key(key) implies exists|
                        j: int,
                    | 0 <= j < self.entries@.len() && self.entries@[j].0@ == key by {
                        if key == k {
                            assert(self.entries@[n as int].0@ == key);
                        } else {
                            let j = choose|j: int| 0 <= j < old_e.len() && old_e[j].0@ == key;
                            assert(self.entries@[j].0@ == key);
                        }
                    }
                }
            },
        }
    }

    /// Removes the entry of `name`, handing its value back.
    pub fn remove(&mut self, name: &str) -> (r: Option<V>)
        requires
            old(self).wf(),
        ensures
            final(self).wf(),
            final(self)@ == old(self)@.remove(name@),
            r matches Some(v) ==> old(self)@.contains_key(name@) && v == old(self)@[name@],
            r is None ==> !old(self)@.contains_key(name@),
    {
        let ghost old_e = self.entries@;
        match self.find_index(name) {
            None => {
                assert(self.model@.remove(name@) =~= self.model@);
                None
            },
            Some(i) => {
                let (_, v) = self.entries.remove(i);
                proof {
                    let k = name@;
                    self.model@ = self.model@.remove(k);
                    assert(old_e[i as int].0@ == k);
                    assert forall|j: int| 0 <= j < self.entries@.len() implies #[trigger] self.entries@[j] == if j < i { old_e[j] } else { old_e[j + 1] } by {}
                    assert forall|a: int, b: int|
                        0 <= a < self.entries@.len() && 0 <= b < self.entries@.len() && a != b
                            implies self.entries@[a].0@ != self.entries@[b].0@ by {
                        let a0 = if a < i { a } else { a + 1 };
                        let b0 = if b < i { b } else { b + 1 };
                        assert(self.entries@[a] == old_e[a0]);
                        assert(self.entries@[b] == old_e[b0]);
                    }
                    assert forall|j: int| 0 <= j < self.entries@.len() implies self.model@.contains_key(
                        #[trigger] self.entries@[j].0@,
                    ) && self.model@[self.entries@[j].0@] == self.entries@[j].1 by {
                        let j0 = if j < i { j } else { j + 1 };
                        assert(self.entries@[j] == old_e[j0]);
                        assert(old(self).model@.contains_key(old_e[j0].0@));
                        assert(old_e[j0].0@ != k);
                    }
                    assert forall|key: Seq<char>| #[trigger] self.model@.contains_key(key) implies exists|
                        j: int,
                    | 0 <= j < self.entries@.len() && self.entries@[j].0@ == key by {
                        let j0 = choose|j: int| 0 <= j < old_e.len() && old_e[j].0@ == key;
                        assert(j0 != i);
                        if j0 < i {
                            assert(self.entries@[j0].0@ == key);
                        } else {
                            assert(self.entries@[j0 - 1].0@ == key);
                        }
                    }
                    assert(self.model@.dom() =~= old(self).model@.dom().remove(k));
                }
                Some(v)
            },
        }
    }

    /// Removes every entry.
    pub fn clear(&mut self)
        requires
            old(self).wf(),
        ensures
            final(self).wf(),
            final(self)@ == Map::<Seq<char>, V>::empty(),
    {
        self.entries = Vec::new();
        proof {
            self.model@ = Map::empty();
        }
    }

    /// The number of entries.
    pub fn len(&self) -> (n: usize)
        requires
            self.wf(),
        ensures
            n == self@.dom().len(),
    {
        self.entries.len()
    }

    /// The names, each once.
    pub fn keys(&self) -> (ks: Vec<String>)
        requires
            self.wf(),
        ensures
            ks@.len() == self@.dom().len(),
            forall|i: int, j: int| 0 <= i < ks@.len() && 0 <= j < ks@.len() && i != j ==> ks@[i]@ != ks@[j]@,
            forall|k: Seq<char>| self@.contains_key(k) <==> exists|i: int| 0 <= i < ks@.len() && ks@[i]@ == k,
            forall|i: int| 0 <= i < ks@.len() ==> #[trigger] ks@[i]@ == self.names()[i],
    {
        let mut ks: Vec<String> = Vec::new();
        let mut i: usize = 0;
        while i < self.entries.len()
            invariant
                self.wf(),
                i <= self.entries@.len(),
                ks@.len() == i,
                forall|j: int| 0 <= j < i ==> #[trigger] ks@[j]@ == self.entries@[j].0@,
            decreases self.entries.len() - i,
        {
            ks.push(self.entries[i].0.clone());
            i = i + 1;
        }
        assert forall|k: Seq<char>| self@.contains_key(k) implies exists|i: int| 0 <= i < ks@.len() && ks@[i]@ == k by {
            let j = choose|j: int| 0 <= j < self.entries@.len() && self.entries@[j].0@ == k;
            assert(ks@[j]@ == k);
        }
        assert forall|k: Seq<char>| (exists|i: int| 0 <= i < ks@.len() && ks@[i]@ == k) implies self@.contains_key(k) by {
            let j = choose|j: int| 0 <= j < ks@.len() && ks@[j]@ == k;
            assert(self.model@.contains_key(self.entries@[j].0@));
        }
        ks
    }

    /// The names are distinct and are exactly the names with entries.
    pub proof fn lemma_names(&self)
        requires
            self.wf(),
        ensures
            self.names().len() == self@.dom().len(),
            forall|i: int, j: int|
                0 <= i < self.names().len() && 0 <= j < self.names().len() && i != j ==> self.names()[i]
                    != self.names()[j],
            forall|i: int| 0 <= i < self.names().len() ==> self@.contains_key(#[trigger] self.names()[i]),
            forall|k: Seq<char>| self@.contains_key(k) ==> exists|i: int| 0 <= i < self.names().len() && self.names()[i] == k,
    {
        assert forall|k: Seq<char>| self@.contains_key(k) implies exists|i: int| 0 <= i < self.names().len() && self.names()[i] == k by {
            let j = choose|j: int| 0 <= j < self.entries@.len() && self.entries@[j].0@ == k;
            assert(self.names()[j] == k);
        }
        assert forall|i: int| 0 <= i < self.names().len() implies self@.contains_key(#[trigger] self.names()[i]) by {
            assert(self.names()[i] == self.entries@[i].0@);
        }
    }

    /// The entries in the order of `names()`.
    pub fn values(&self) -> (vs: Vec<&V>)
        requires
            self.wf(),
        ensures
            vs@.len() == self.names().len(),
            forall|i: int| 0 <= i < vs@.len() ==> *#[trigger] vs@[i] == self@[self.names()[i]],
    {
        let mut vs: Vec<&V> = Vec::new();
        let mut i: usize = 0;
        while i < self.entries.len()
            invariant
                self.wf(),
                i <= self.entries@.len(),
                vs@.len() == i,
                forall|j: int| 0 <= j < i ==> *vs@[j] == self.entries@[j].1,
            decreases self.entries.len() - i,
        {
            vs.push(&self.entries[i].1);
            i = i + 1;
        }
        assert forall|j: int| 0 <= j < vs@.len() implies *#[trigger] vs@[j] == self@[self.names()[j]] by {
            assert(self.names()[j] == self.entries@[j].0@);
            assert(self.model@.contains_key(self.entries@[j].0@));
        }
        vs
    }

    /// The entry at position `i` in insertion order, with its name.
    pub fn entry_at(&self, i: usize) -> (r: (&String, &V))
        requires
            self.wf(),
            i < self@.dom().len(),
        ensures
            self@.contains_key(r.0@) && *r.1 == self@[r.0@],
    {
        let e = &self.entries[i];
        assert(self.model@.contains_key(self.entries@[i as int].0@));
        (&e.0, &e.1)
    }
}

} // verus!
