//! A small table keyed by text, kept as two parallel vectors.
//!
//! The table is viewed as a `Map` from the key's characters to the value.
//! No key occurs twice; an entry keeps its place in the order of insertion
//! until an entry before it is removed.

use vstd::prelude::*;
use crate::text::same_text;

verus! {

/// A table from text to `V`.
#[derive(Debug)]
pub struct Table<V> {
    keys: Vec<String>,
    values: Vec<V>,
}

impl<V> View for Table<V> {
    type V = Map<Seq<char>, V>;

    closed spec fn view(&self) -> Map<Seq<char>, V> {
        Map::new(|k: Seq<char>| self.holds(k), |k: Seq<char>| self.values[self.slot(k)])
    }
}

impl<V> Table<V> {
    /// Some entry has the key `k`.
    pub closed spec fn holds(&self, k: Seq<char>) -> bool {
        exists|i: int| 0 <= i < self.keys.len() && (#[trigger] self.keys[i])@ == k
    }

    /// The position of an entry with the key `k`.
    pub closed spec fn slot(&self, k: Seq<char>) -> int {
        choose|i: int| 0 <= i < self.keys.len() && (#[trigger] self.keys[i])@ == k
    }

    /// There is a value for every key, and no key occurs twice.
    pub closed spec fn wf(&self) -> bool {
        &&& self.keys.len() == self.values.len()
        &&& forall|i: int, j: int|
            0 <= i < j < self.keys.len() ==> (#[trigger] self.keys[i])@ != (
            #[trigger] self.keys[j])@
    }

    /// The keys of the entries, by position.
    pub closed spec fn spec_keys(&self) -> Seq<Seq<char>> {
        Seq::new(self.keys.len() as nat, |i: int| self.keys[i]@)
    }

    /// The values of the entries, by position.
    pub closed spec fn spec_values(&self) -> Seq<V> {
        self.values@
    }

    /// The number of entries.
    pub open spec fn spec_len(&self) -> nat {
        self.spec_keys().len()
    }

    /// The key of the entry at position `i`.
    pub open spec fn spec_key(&self, i: int) -> Seq<char> {
        self.spec_keys()[i]
    }

    /// The value of the entry at position `i`.
    pub open spec fn spec_value(&self, i: int) -> V {
        self.spec_values()[i]
    }

    /// The entries by position are the entries by key.
    pub proof fn lemma_positions(&self)
        requires
            self.wf(),
        ensures
            self.spec_values().len() == self.spec_len(),
            forall|i: int|
                0 <= i < self.spec_len() ==> self@.contains_key(#[trigger] self.spec_key(i))
                    && self@[self.spec_key(i)] == self.spec_value(i),
            forall|k: Seq<char>| #[trigger]
                self@.contains_key(k) ==> 0 <= self.slot(k) < self.spec_len() && self.spec_key(
                    self.slot(k),
                ) == k,
            forall|i: int, j: int|
                0 <= i < j < self.spec_len() ==> #[trigger] self.spec_key(i)
                    != #[trigger] self.spec_key(j),
    {
    }

    /// An empty table.
    pub fn new() -> (t: Self)
        ensures
            t.wf(),
            t@ == Map::<Seq<char>, V>::empty(),
            t.spec_len() == 0,
    {
        Table { keys: Vec::new(), values: Vec::new() }
    }

    /// The number of entries.
    pub fn len(&self) -> (n: usize)
        ensures
            n == self.spec_len(),
    {
        self.keys.len()
    }

    /// The key at position `i`.
    pub fn key_at(&self, i: usize) -> (k: &String)
        requires
            i < self.spec_len(),
        ensures
            k@ == self.spec_key(i as int),
    {
        &self.keys[i]
    }

    /// The value at position `i`.
    pub fn value_at(&self, i: usize) -> (v: &V)
        requires
            self.wf(),
            i < self.spec_len(),
        ensures
            *v == self.spec_value(i as int),
    {
        &self.values[i]
    }

    /// The position of the entry with the key `key`.
    pub fn position(&self, key: &str) -> (found: Option<usize>)
        requires
            self.wf(),
        ensures
            match found {
                Some(i) => i < self.spec_len() && self.spec_key(i as int) == key@
                    && self@.contains_key(key@) && self@[key@] == self.spec_value(i as int),
                None => !self@.contains_key(key@),
            },
    {
        let mut i: usize = 0;
        while i < self.keys.len()
            invariant
                self.wf(),
                i <= self.keys.len(),
                forall|j: int| 0 <= j < i ==> (#[trigger] self.keys[j])@ != key@,
            decreases self.keys.len() - i,
        {
            if same_text(self.keys[i].as_str(), key) {
                proof {
                    self.lemma_positions();
                }
                return Some(i);
            }
            i += 1;
        }
        None
    }

    /// The value stored under `key`.
    pub fn get(&self, key: &str) -> (found: Option<&V>)
        requires
            self.wf(),
        ensures
            match found {
                Some(v) => self@.contains_key(key@) && *v == self@[key@],
                None => !self@.contains_key(key@),
            },
    {
        match self.position(key) {
            Some(i) => Some(&self.values[i]),
            None => None,
        }
    }

    /// Puts `value` in place of the value at position `i`.
    pub fn set_at(&mut self, i: usize, value: V)
        requires
            old(self).wf(),
            i < old(self).spec_len(),
        ensures
            final(self).wf(),
            final(self).spec_keys() == old(self).spec_keys(),
            final(self).spec_values() == old(self).spec_values().update(i as int, value),
            final(self)@ == old(self)@.insert(old(self).spec_key(i as int), value),
    {
        let ghost before = *self;
        self.values.set(i, value);
        proof {
            before.lemma_positions();
            self.lemma_positions();
        }
    }

    /// Stores `value` under `key`, in place of what was stored there. A new
    /// key is put after all the others; a known key keeps its position.
    pub fn set(&mut self, key: String, value: V)
        requires
            old(self).wf(),
        ensures
            final(self).wf(),
            final(self)@ == old(self)@.insert(key@, value),
            old(self)@.contains_key(key@) ==> final(self).spec_keys() == old(self).spec_keys(),
            !old(self)@.contains_key(key@) ==> final(self).spec_keys() == old(
                self,
            ).spec_keys().push(key@) && final(self).spec_values() == old(
                self,
            ).spec_values().push(value),
    {
        let ghost before = *self;
        match self.position(key.as_str()) {
            Some(i) => {
                self.set_at(i, value);
            },
            None => {
                self.keys.push(key);
                self.values.push(value);
                proof {
                    before.lemma_positions();
                    self.lemma_positions();
                    assert forall|k: Seq<char>| self@.contains_key(k) <==> before@.insert(
                        key@,
                        value,
                    ).contains_key(k) by {
                        if before@.contains_key(k) {
                            assert(self.spec_key(before.slot(k)) == k);
                        }
                        if k == key@ {
                            assert(self.spec_key(before.spec_len() as int) == k);
                        }
                    }
                }
            },
        }
    }

    /// Takes the entry at position `i` out; the entries after it move up by
    /// one.
    pub fn remove_at(&mut self, i: usize)
        requires
            old(self).wf(),
            i < old(self).spec_len(),
        ensures
            final(self).wf(),
            final(self).spec_keys() == old(self).spec_keys().remove(i as int),
            final(self).spec_values() == old(self).spec_values().remove(i as int),
            final(self)@ == old(self)@.remove(old(self).spec_key(i as int)),
    {
        let ghost before = *self;
        self.keys.remove(i);
        self.values.remove(i);
        proof {
            let key = before.spec_key(i as int);
            before.lemma_positions();
            self.lemma_positions();
            assert forall|k: Seq<char>| self@.contains_key(k) <==> before@.remove(
                key,
            ).contains_key(k) by {
                if before@.contains_key(k) && k != key {
                    let j0 = before.slot(k);
                    let j = if j0 < i { j0 } else { j0 - 1 };
                    assert(self.spec_key(j) == k);
                }
            }
        }
    }

    /// Takes the entry under `key` out, if there is one.
    pub fn remove(&mut self, key: &str)
        requires
            old(self).wf(),
        ensures
            final(self).wf(),
            final(self)@ == old(self)@.remove(key@),
    {
        match self.position(key) {
            Some(i) => {
                self.remove_at(i);
            },
            None => {},
        }
    }

    /// Takes every entry out.
    pub fn clear(&mut self)
        ensures
            final(self).wf(),
            final(self)@ == Map::<Seq<char>, V>::empty(),
            final(self).spec_len() == 0,
    {
        self.keys.clear();
        self.values.clear();
    }
}

} // verus!
