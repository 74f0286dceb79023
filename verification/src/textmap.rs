//! A map with string keys.

use crate::text;
use vstd::prelude::*;

verus! {

/// A map from strings to values of type `V`, in order of first insertion.
#[derive(Debug)]
pub struct TextMap<V> {
    entries: Vec<(String, V)>,
}

/// Whether no key occurs twice.
spec fn keys_unique<V>(entries: Seq<(String, V)>) -> bool {
    forall|i: int, j: int|
        0 <= i < j < entries.len() ==> (#[trigger] entries[i]).0@ != (#[trigger] entries[j]).0@
}

/// Whether `key` is the key of an entry.
spec fn has_key<V>(entries: Seq<(String, V)>, key: Seq<char>) -> bool {
    exists|i: int| 0 <= i < entries.len() && (#[trigger] entries[i]).0@ == key
}

/// The value under a key that some entry has.
spec fn value_of<V>(entries: Seq<(String, V)>, key: Seq<char>) -> V {
    let i = choose|i: int| 0 <= i < entries.len() && (#[trigger] entries[i]).0@ == key;
    entries[i].1
}

impl<V> View for TextMap<V> {
    type V = Map<Seq<char>, V>;

    closed spec fn view(&self) -> Map<Seq<char>, V> {
        Map::new(
            |key: Seq<char>| has_key(self.entries@, key),
            |key: Seq<char>| value_of(self.entries@, key),
        )
    }
}

impl<V> TextMap<V> {
    #[verifier::type_invariant]
    spec fn keys_are_unique(self) -> bool {
        keys_unique(self.entries@)
    }

    /// The keys in order of first insertion.
    pub closed spec fn order(&self) -> Seq<Seq<char>> {
        self.entries@.map_values(|e: (String, V)| e.0@)
    }

    /// The empty map.
    #[must_use]
    pub fn new() -> (m: Self)
        ensures
            m@ == Map::<Seq<char>, V>::empty(),
            m.order() == Seq::<Seq<char>>::empty(),
    {
        let m = TextMap { entries: Vec::new() };
        assert(m@ =~= Map::<Seq<char>, V>::empty());
        assert(m.order() =~= Seq::<Seq<char>>::empty());
        m
    }

    fn position(&self, key: &str) -> (r: Option<usize>)
        ensures
            match r {
                Some(i) => i < self.entries@.len() && self.entries@[i as int].0@ == key@,
                None => !has_key(self.entries@, key@),
            },
    {
        let mut i: usize = 0;
        while i < self.entries.len()
            invariant
                i <= self.entries@.len(),
                forall|j: int| 0 <= j < i ==> (#[trigger] self.entries@[j]).0@ != key@,
            decreases self.entries@.len() - i,
        {
            if text::same_text(&self.entries[i].0, key) {
                return Some(i);
            }
            i = i + 1;
        }
        None
    }

    /// Whether the map has a value under `key`.
    #[must_use]
    pub fn contains_key(&self, key: &str) -> (r: bool)
        ensures
            r == self@.contains_key(key@),
    {
        self.position(key).is_some()
    }

    /// The value under `key`.
    #[must_use]
    pub fn get(&self, key: &str) -> (r: Option<&V>)
        ensures
            match r {
                Some(v) => self@.contains_key(key@) && *v == self@[key@],
                None => !self@.contains_key(key@),
            },
    {
        proof {
            use_type_invariant(self);
        }
        match self.position(key) {
            Some(i) => {
                assert(has_key(self.entries@, key@));
                Some(&self.entries[i].1)
            },
            None => None,
        }
    }

    /// Puts `value` under `key`, in place of any value there.
    pub fn insert(&mut self, key: &str, value: V)
        ensures
            final(self)@ == old(self)@.insert(key@, value),
            final(self).order() == if old(self)@.contains_key(key@) {
                old(self).order()
            } else {
                old(self).order().push(key@)
            },
    {
        proof {
            use_type_invariant(&*self);
        }
        let found = self.position(key);
        let ghost before = self.entries@;
        let mut entries: Vec<(String, V)> = Vec::new();
        core::mem::swap(&mut self.entries, &mut entries);
        match found {
            Some(i) => {
                assert(has_key(before, key@));
                let name = entries[i].0.clone();
                entries.set(i, (name, value));
            },
            None => {
                entries.push((key.to_owned(), value));
            },
        }
        proof {
            let after = entries@;
            match found {
                Some(at) => {
                    let i = at as int;
                    assert(keys_unique(after));
                    assert forall|k: Seq<char>| has_key(before, k) == has_key(after, k) by {
                        if has_key(before, k) {
                            let j = choose|j: int|
                                0 <= j < before.len() && (#[trigger] before[j]).0@ == k;
                            assert(after[j].0@ == k);
                        }
                        if has_key(after, k) {
                            let j = choose|j: int|
                                0 <= j < after.len() && (#[trigger] after[j]).0@ == k;
                            assert(before[j].0@ == k);
                        }
                    }
                    assert forall|k: Seq<char>| has_key(before, k) && k != key@ implies value_of(
                        before,
                        k,
                    ) == value_of(after, k) by {
                        let j = choose|j: int|
                            0 <= j < before.len() && (#[trigger] before[j]).0@ == k;
                        let l = choose|l: int|
                            0 <= l < after.len() && (#[trigger] after[l]).0@ == k;
                        assert(after[j].0@ == k);
                        assert(j == l);
                    }
                    let l = choose|l: int|
                        0 <= l < after.len() && (#[trigger] after[l]).0@ == key@;
                    assert(after[i].0@ == key@);
                    assert(l == i);
                    assert(after.map_values(|e: (String, V)| e.0@) =~= before.map_values(
                        |e: (String, V)| e.0@,
                    ));
                },
                None => {
                    let n = before.len() as int;
                    assert(after[n].0@ == key@);
                    assert forall|j: int| 0 <= j < n implies after[j] == before[j] && (
                    #[trigger] before[j]).0@ != key@ by {
                        assert(after[j] == before[j]);
                    }
                    assert(keys_unique(after));
                    assert forall|k: Seq<char>|
                        has_key(after, k) == (has_key(before, k) || k == key@) by {
                        if has_key(before, k) {
                            let j = choose|j: int|
                                0 <= j < before.len() && (#[trigger] before[j]).0@ == k;
                            assert(after[j].0@ == k);
                        }
                        if has_key(after, k) && k != key@ {
                            let j = choose|j: int|
                                0 <= j < after.len() && (#[trigger] after[j]).0@ == k;
                            assert(before[j].0@ == k);
                        }
                    }
                    assert forall|k: Seq<char>| has_key(before, k) implies value_of(before, k)
                        == value_of(after, k) by {
                        let j = choose|j: int|
                            0 <= j < before.len() && (#[trigger] before[j]).0@ == k;
                        let l = choose|l: int|
                            0 <= l < after.len() && (#[trigger] after[l]).0@ == k;
                        assert(after[j].0@ == k);
                        assert(j == l);
                    }
                    let l = choose|l: int|
                        0 <= l < after.len() && (#[trigger] after[l]).0@ == key@;
                    assert(l == n);
                    assert(after.map_values(|e: (String, V)| e.0@) =~= before.map_values(
                        |e: (String, V)| e.0@,
                    ).push(key@));
                },
            }
        }
        self.entries = entries;
        assert(self@ =~= old(self)@.insert(key@, value));
    }

    /// The keys, each once, in order of first insertion.
    #[must_use]
    pub fn keys(&self) -> (ks: Vec<String>)
        ensures
            ks@.len() == self.order().len(),
            forall|i: int| 0 <= i < ks@.len() ==> (#[trigger] ks@[i])@ == self.order()[i],
            forall|i: int, j: int|
                0 <= i < j < ks@.len() ==> (#[trigger] ks@[i])@ != (#[trigger] ks@[j])@,
    {
        proof {
            use_type_invariant(self);
        }
        let mut ks: Vec<String> = Vec::new();
        let mut i: usize = 0;
        while i < self.entries.len()
            invariant
                i <= self.entries@.len(),
                ks@.len() == i,
                forall|j: int| 0 <= j < i ==> (#[trigger] ks@[j])@ == self.entries@[j].0@,
            decreases self.entries@.len() - i,
        {
            ks.push(self.entries[i].0.clone());
            i = i + 1;
        }
        ks
    }
}

/// The keys in order are those of the map.
pub proof fn order_lists_keys<V>(m: TextMap<V>, key: Seq<char>)
    ensures
        m.order().contains(key) <==> m@.contains_key(key),
{
    if m.order().contains(key) {
        let i = choose|i: int| 0 <= i < m.order().len() && m.order()[i] == key;
        assert(m.entries@[i].0@ == key);
    }
    if m@.contains_key(key) {
        let i = choose|i: int| 0 <= i < m.entries@.len() && (#[trigger] m.entries@[i]).0@ == key;
        assert(m.order()[i] == key);
    }
}

} // verus!
