//! A map keyed by strings that keeps its entries in insertion order.
//!
//! Each key occurs at most once; inserting an existing key replaces its value in place.
use vstd::prelude::*;
use crate::text::str_eq;

verus! {

/// A string-keyed map over an ordered list of entries.
#[derive(Debug)]
pub struct StrMap<V> {
    entries: Vec<(String, V)>,
}

/// The keys of a list of entries, in order.
pub open spec fn keys_of<V>(s: Seq<(String, V)>) -> Seq<Seq<char>> {
    s.map_values(|e: (String, V)| e.0@)
}

impl<V> StrMap<V> {
    /// Each key occurs once. Every map holds this; `use_type_invariant` gives it.
    #[verifier::type_invariant]
    pub closed spec fn wf(self) -> bool {
        keys_of(self.entries@).no_duplicates()
    }

    /// The entries, as (key, value) pairs in insertion order.
    pub closed spec fn pairs(self) -> Seq<(Seq<char>, V)> {
        self.entries@.map_values(|e: (String, V)| (e.0@, e.1))
    }

    /// The keys, in insertion order.
    pub closed spec fn keys_seq(self) -> Seq<Seq<char>> {
        keys_of(self.entries@)
    }

    /// The map from keys to values.
    pub closed spec fn view(self) -> Map<Seq<char>, V> {
        Map::new(
            |k: Seq<char>| keys_of(self.entries@).contains(k),
            |k: Seq<char>| self.entries@[keys_of(self.entries@).index_of(k)].1,
        )
    }

    /// The keys hold no duplicates and are exactly the map's domain; the pairs list the
    /// keys in order with their values.
    pub proof fn lemma_shape(self)
        requires
            self.wf(),
        ensures
            self.keys_seq().no_duplicates(),
            self.keys_seq().to_set() == self.view().dom(),
            self.pairs().len() == self.keys_seq().len(),
            forall|i: int| 0 <= i < self.pairs().len() ==> (#[trigger] self.pairs()[i]).0
                == self.keys_seq()[i] && self.view()[self.keys_seq()[i]] == self.pairs()[i].1,
            self.view().dom().finite(),
            self.keys_seq().to_set().len() == self.keys_seq().len(),
    {
        let ks = self.keys_seq();
        assert(ks.to_set() =~= self.view().dom());
        assert forall|i: int| 0 <= i < self.pairs().len() implies (#[trigger] self.pairs()[i]).0
            == self.keys_seq()[i] && self.view()[self.keys_seq()[i]] == self.pairs()[i].1 by {
            assert(ks.contains(ks[i]));
            assert(ks[ks.index_of(ks[i])] == ks[i]);
        }
        ks.unique_seq_to_set();
    }

    /// An empty map.
    pub fn new() -> (m: Self)
        ensures
            m@ == Map::<Seq<char>, V>::empty(),
            m.pairs() == Seq::<(Seq<char>, V)>::empty(),
            m.keys_seq() == Seq::<Seq<char>>::empty(),
    {
        let m = StrMap { entries: Vec::new() };
        assert(m@ =~= Map::<Seq<char>, V>::empty());
        assert(m.pairs() =~= Seq::<(Seq<char>, V)>::empty());
        m
    }

    /// The number of entries.
    pub fn len(&self) -> (n: usize)
        ensures
            n == self.pairs().len(),
            n == self@.dom().len(),
    {
        proof {
            use_type_invariant(self);
            self.lemma_shape();
        }
        self.entries.len()
    }

    /// The position of `key`, if present.
    fn position(&self, key: &str) -> (r: Option<usize>)
        ensures
            r matches Some(i) ==> i < self.entries@.len() && self.entries@[i as int].0@ == key@
                && keys_of(self.entries@).index_of(key@) == i && self@.dom().contains(key@)
                && self@[key@] == self.entries@[i as int].1,
            r is None ==> !keys_of(self.entries@).contains(key@) && !self@.dom().contains(key@),
    {
        proof {
            use_type_invariant(self);
        }
        let ghost ks = keys_of(self.entries@);
        let mut i: usize = 0;
        while i < self.entries.len()
            invariant
                i <= self.entries@.len(),
                ks == keys_of(self.entries@),
                ks.no_duplicates(),
                forall|j: int| 0 <= j < i ==> ks[j] != key@,
            decreases self.entries@.len() - i,
        {
            if str_eq(self.entries[i].0.as_str(), key) {
                assert(ks[i as int] == key@);
                assert(ks.contains(key@));
                assert(ks[ks.index_of(key@)] == key@);
                assert(self@.dom().contains(key@));
                return Some(i);
            }
            i = i + 1;
        }
        assert(!self@.dom().contains(key@));
        None
    }

    /// Whether `key` is present.
    pub fn contains_key(&self, key: &str) -> (b: bool)
        ensures
            b == self@.dom().contains(key@),
    {
        self.position(key).is_some()
    }

    /// The value of `key`, if present.
    pub fn get(&self, key: &str) -> (r: Option<&V>)
        ensures
            r matches Some(v) ==> self@.dom().contains(key@) && *v == self@[key@],
            r is None ==> !self@.dom().contains(key@),
    {
        match self.position(key) {
            Some(i) => Some(&self.entries[i].1),
            None => None,
        }
    }

    /// Sets the value of `key`: replaces it in place where the key is present, else appends.
    pub fn insert(&mut self, key: String, value: V)
        ensures
            final(self)@ == old(self)@.insert(key@, value),
            old(self)@.dom().contains(key@) ==> final(self).pairs() == old(self).pairs().update(
                old(self).keys_seq().index_of(key@),
                (key@, value),
            ),
            !old(self)@.dom().contains(key@) ==> final(self).pairs() == old(self).pairs().push(
                (key@, value),
            ),
            final(self).keys_seq().to_set() == old(self).keys_seq().to_set().insert(key@),
            old(self)@.dom().contains(key@) ==> final(self).keys_seq() == old(self).keys_seq(),
            !old(self)@.dom().contains(key@) ==> final(self).keys_seq() == old(
                self,
            ).keys_seq().push(key@),
    {
        proof {
            use_type_invariant(&*self);
        }
        let ghost old_entries = self.entries@;
        let ghost ks = keys_of(old_entries);
        match self.position(key.as_str()) {
            Some(i) => {
                let ghost k = key@;
                let mut entries: Vec<(String, V)> = Vec::new();
                std::mem::swap(&mut entries, &mut self.entries);
                entries.set(i, (key, value));
                proof {
                    assert(keys_of(entries@) =~= ks.update(i as int, k));
                    assert(keys_of(entries@) =~= ks);
                }
                self.entries = entries;
                proof {
                    assert(self.pairs() =~= old(self).pairs().update(i as int, (k, value)));
                    let nks = keys_of(self.entries@);
                    assert forall|k2: Seq<char>| #[trigger] nks.contains(k2) implies self@[k2]
                        == old(self)@.insert(k, value)[k2] by {
                        if k2 != k {
                            let j = ks.index_of(k2);
                            assert(j != i);
                        }
                    }
                    assert(self@ =~= old(self)@.insert(k, value));
                    assert(nks.to_set() =~= ks.to_set().insert(k));
                }
            },
            None => {
                let ghost k = key@;
                let mut entries: Vec<(String, V)> = Vec::new();
                std::mem::swap(&mut entries, &mut self.entries);
                entries.push((key, value));
                proof {
                    assert(keys_of(entries@) =~= ks.push(k));
                    assert forall|a: int, b: int|
                        0 <= a < b < keys_of(entries@).len() implies keys_of(entries@)[a]
                        != keys_of(entries@)[b] by {
                        if b == ks.len() {
                            assert(ks.contains(ks[a]));
                        }
                    }
                }
                self.entries = entries;
                proof {
                    assert(self.pairs() =~= old(self).pairs().push((k, value)));
                    let nks = keys_of(self.entries@);
                    assert forall|k2: Seq<char>| #[trigger] nks.contains(k2) implies self@[k2]
                        == old(self)@.insert(k, value)[k2] by {
                        if k2 != k {
                            let j = ks.index_of(k2);
                            assert(nks[j] == k2);
                            assert(nks.index_of(k2) == j);
                        } else {
                            assert(nks[ks.len() as int] == k);
                        }
                    }
                    assert forall|k2: Seq<char>| #[trigger] nks.contains(k2) <==> old(self)@.insert(
                        k,
                        value,
                    ).dom().contains(k2) by {
                        if nks.contains(k2) && k2 != k {
                            let j = nks.index_of(k2);
                            assert(ks[j] == k2);
                        }
                        if k2 == k {
                            assert(nks[ks.len() as int] == k);
                        }
                        if ks.contains(k2) {
                            let j = ks.index_of(k2);
                            assert(nks[j] == k2);
                        }
                    }
                    assert(self@ =~= old(self)@.insert(k, value));
                    assert(nks.to_set() =~= ks.to_set().insert(k));
                }
            },
        }
    }

    /// Removes `key`, returning its value if it was present. The other entries keep their
    /// order.
    pub fn remove(&mut self, key: &str) -> (r: Option<V>)
        ensures
            final(self)@ == old(self)@.remove(key@),
            r matches Some(v) ==> old(self)@.dom().contains(key@) && v == old(self)@[key@],
            r is None ==> !old(self)@.dom().contains(key@) && final(self).pairs() == old(
                self,
            ).pairs(),
            r is Some ==> final(self).pairs() == old(self).pairs().remove(
                old(self).keys_seq().index_of(key@),
            ),
    {
        proof {
            use_type_invariant(&*self);
        }
        let ghost ks = keys_of(self.entries@);
        match self.position(key) {
            Some(i) => {
                let mut entries: Vec<(String, V)> = Vec::new();
                std::mem::swap(&mut entries, &mut self.entries);
                let (_, v) = entries.remove(i);
                proof {
                    assert(keys_of(entries@) =~= ks.remove(i as int));
                    assert forall|a: int, b: int|
                        0 <= a < b < keys_of(entries@).len() implies keys_of(entries@)[a]
                        != keys_of(entries@)[b] by {
                        let a2 = if a < i { a } else { a + 1 };
                        let b2 = if b < i { b } else { b + 1 };
                        assert(keys_of(entries@)[a] == ks[a2]);
                        assert(keys_of(entries@)[b] == ks[b2]);
                    }
                }
                self.entries = entries;
                proof {
                    assert(self.pairs() =~= old(self).pairs().remove(i as int));
                    let nks = keys_of(self.entries@);
                    assert forall|k2: Seq<char>| #[trigger] nks.contains(k2) <==> old(self)@.remove(
                        key@,
                    ).dom().contains(k2) by {
                        if nks.contains(k2) {
                            let j = nks.index_of(k2);
                            let j2 = if j < i { j } else { j + 1 };
                            assert(ks[j2] == k2);
                        }
                        if ks.contains(k2) && k2 != key@ {
                            let j = ks.index_of(k2);
                            let j2 = if j < i { j } else { j - 1 };
                            assert(nks[j2] == k2);
                        }
                    }
                    assert forall|k2: Seq<char>| #[trigger] nks.contains(k2) implies self@[k2]
                        == old(self)@[k2] by {
                        let j = ks.index_of(k2);
                        let j2 = if j < i { j } else { j - 1 };
                        assert(nks[j2] == k2);
                        assert(nks.index_of(k2) == j2);
                    }
                    assert(self@ =~= old(self)@.remove(key@));
                }
                Some(v)
            },
            None => {
                assert(old(self)@ =~= old(self)@.remove(key@));
                None
            },
        }
    }

    /// Removes every entry.
    pub fn clear(&mut self)
        ensures
            final(self)@ == Map::<Seq<char>, V>::empty(),
            final(self).pairs() == Seq::<(Seq<char>, V)>::empty(),
    {
        self.entries = Vec::new();
        assert(self@ =~= Map::<Seq<char>, V>::empty());
        assert(self.pairs() =~= Seq::<(Seq<char>, V)>::empty());
    }

    /// The key of the entry at position `i`.
    pub fn key_at(&self, i: usize) -> (k: &String)
        requires
            i < self.pairs().len(),
        ensures
            k@ == self.pairs()[i as int].0,
    {
        &self.entries[i].0
    }

    /// The value of the entry at position `i`.
    pub fn value_at(&self, i: usize) -> (v: &V)
        requires
            i < self.pairs().len(),
        ensures
            *v == self.pairs()[i as int].1,
    {
        &self.entries[i].1
    }

    /// Copies of the keys, in order.
    pub fn keys(&self) -> (r: Vec<String>)
        ensures
            r@.map_values(|s: String| s@) == self.keys_seq(),
            self.keys_seq().no_duplicates(),
            self.keys_seq().to_set() == self@.dom(),
            self.pairs().len() == self.keys_seq().len(),
    {
        proof {
            use_type_invariant(self);
            self.lemma_shape();
        }
        let mut r: Vec<String> = Vec::new();
        let mut i: usize = 0;
        while i < self.entries.len()
            invariant
                i <= self.entries@.len(),
                r@.map_values(|s: String| s@) == keys_of(self.entries@).take(i as int),
            decreases self.entries@.len() - i,
        {
            let k = self.entries[i].0.clone();
            assert(k@ == keys_of(self.entries@)[i as int]);
            let ghost prev = r@;
            r.push(k);
            assert(r@ == prev.push(k));
            assert(r@.map_values(|s: String| s@) =~= prev.map_values(|s: String| s@).push(k@));
            assert(keys_of(self.entries@).take(i + 1) =~= keys_of(self.entries@).take(
                i as int,
            ).push(k@));
            i = i + 1;
        }
        assert(keys_of(self.entries@).take(i as int) =~= keys_of(self.entries@));
        r
    }
}

impl<V: Clone> Clone for StrMap<V> {
    /// A copy with the same keys in the same order, each value a clone of the one it copies.
    fn clone(&self) -> (c: Self)
        ensures
            c.keys_seq() == self.keys_seq(),
            c.pairs().len() == self.pairs().len(),
            forall|i: int|
                0 <= i < self.pairs().len() ==> cloned(self.pairs()[i].1, #[trigger] c.pairs()[i].1),
    {
        proof {
            use_type_invariant(self);
        }
        let mut entries: Vec<(String, V)> = Vec::new();
        let mut i: usize = 0;
        while i < self.entries.len()
            invariant
                i <= self.entries@.len(),
                keys_of(self.entries@).no_duplicates(),
                entries@.len() == i,
                keys_of(entries@) == keys_of(self.entries@).take(i as int),
                forall|j: int| 0 <= j < i ==> cloned(self.entries@[j].1, #[trigger] entries@[j].1),
            decreases self.entries@.len() - i,
        {
            let k = self.entries[i].0.clone();
            let v = self.entries[i].1.clone();
            let ghost prev = entries@;
            entries.push((k, v));
            assert(keys_of(entries@) =~= keys_of(prev).push(k@));
            assert(keys_of(self.entries@).take(i + 1) =~= keys_of(self.entries@).take(
                i as int,
            ).push(k@));
            i = i + 1;
        }
        assert(keys_of(self.entries@).take(i as int) =~= keys_of(self.entries@));
        StrMap { entries }
    }
}

} // verus!
