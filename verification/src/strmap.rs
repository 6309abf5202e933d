//! A small string-keyed map kept as an association list in insertion order.
//!
//! Registries in this crate (collectors, subscribers, pending work) are keyed by
//! identifiers; this map gives them a mathematical view (`Map<Seq<char>, V>`)
//! together with the insertion order of its keys.

use vstd::prelude::*;

verus! {

/// Keys of an entry list are pairwise distinct.
pub open spec fn entries_distinct<V>(s: Seq<(String, V)>) -> bool {
    forall|i: int, j: int|
        0 <= i < s.len() && 0 <= j < s.len() && i != j ==> #[trigger] s[i].0@ != #[trigger] s[j].0@
}

/// Whether `k` is a key of an entry list.
pub open spec fn entries_have<V>(s: Seq<(String, V)>, k: Seq<char>) -> bool {
    exists|i: int| 0 <= i < s.len() && #[trigger] s[i].0@ == k
}

/// The position of key `k` in an entry list.
pub open spec fn entries_pos<V>(s: Seq<(String, V)>, k: Seq<char>) -> int {
    choose|i: int| 0 <= i < s.len() && #[trigger] s[i].0@ == k
}

/// The map an entry list stands for.
pub open spec fn entries_map<V>(s: Seq<(String, V)>) -> Map<Seq<char>, V> {
    Map::new(|k: Seq<char>| entries_have(s, k), |k: Seq<char>| s[entries_pos(s, k)].1)
}

/// The keys of an entry list, in order.
pub open spec fn entries_keys<V>(s: Seq<(String, V)>) -> Seq<Seq<char>> {
    s.map_values(|e: (String, V)| e.0@)
}

proof fn lemma_entries_lookup<V>(s: Seq<(String, V)>, i: int)
    requires
        entries_distinct(s),
        0 <= i < s.len(),
    ensures
        entries_map(s).contains_key(s[i].0@),
        entries_map(s)[s[i].0@] == s[i].1,
{
    assert(entries_have(s, s[i].0@));
}

proof fn lemma_entries_update<V>(s: Seq<(String, V)>, i: int, e: (String, V))
    requires
        entries_distinct(s),
        0 <= i < s.len(),
        s[i].0@ == e.0@,
    ensures
        entries_distinct(s.update(i, e)),
        entries_map(s.update(i, e)) == entries_map(s).insert(e.0@, e.1),
        entries_keys(s.update(i, e)) == entries_keys(s),
{
    let t = s.update(i, e);
    assert forall|a: int, b: int| 0 <= a < t.len() && 0 <= b < t.len() && a != b implies #[trigger] t[a].0@
        != #[trigger] t[b].0@ by {
        assert(t[a].0@ == s[a].0@);
        assert(t[b].0@ == s[b].0@);
    }
    assert forall|k: Seq<char>| #[trigger] entries_have(t, k) == entries_map(s).insert(e.0@, e.1).contains_key(k) by {
        if entries_have(t, k) {
            let j = entries_pos(t, k);
            assert(s[j].0@ == k);
        }
        if entries_have(s, k) {
            let j = entries_pos(s, k);
            assert(t[j].0@ == k);
        }
        if k == e.0@ {
            assert(t[i].0@ == k);
        }
    }
    assert forall|k: Seq<char>| entries_have(t, k) implies entries_map(t)[k] == entries_map(s).insert(e.0@, e.1)[k] by {
        let j = entries_pos(t, k);
        if k == e.0@ {
            assert(t[i].0@ == k);
            assert(j == i);
        } else {
            assert(s[j].0@ == k);
            assert(entries_have(s, k));
            let j2 = entries_pos(s, k);
            assert(t[j2].0@ == k);
            assert(j2 == j);
        }
    }
    assert(entries_map(t) =~= entries_map(s).insert(e.0@, e.1));
    assert(entries_keys(t) =~= entries_keys(s));
}

proof fn lemma_entries_push<V>(s: Seq<(String, V)>, e: (String, V))
    requires
        entries_distinct(s),
        !entries_have(s, e.0@),
    ensures
        entries_distinct(s.push(e)),
        entries_map(s.push(e)) == entries_map(s).insert(e.0@, e.1),
        entries_keys(s.push(e)) == entries_keys(s).push(e.0@),
{
    let t = s.push(e);
    let n = s.len() as int;
    assert forall|a: int, b: int| 0 <= a < t.len() && 0 <= b < t.len() && a != b implies #[trigger] t[a].0@
        != #[trigger] t[b].0@ by {
        if a == n {
            assert(t[b] == s[b]);
        } else if b == n {
            assert(t[a] == s[a]);
        } else {
            assert(t[a] == s[a]);
            assert(t[b] == s[b]);
        }
    }
    assert forall|k: Seq<char>| #[trigger] entries_have(t, k) == entries_map(s).insert(e.0@, e.1).contains_key(k) by {
        if entries_have(t, k) {
            let j = entries_pos(t, k);
            if j < n {
                assert(s[j].0@ == k);
            }
        }
        if entries_have(s, k) {
            let j = entries_pos(s, k);
            assert(t[j].0@ == k);
        }
        if k == e.0@ {
            assert(t[n].0@ == k);
        }
    }
    assert forall|k: Seq<char>| entries_have(t, k) implies entries_map(t)[k] == entries_map(s).insert(e.0@, e.1)[k] by {
        let j = entries_pos(t, k);
        if k == e.0@ {
            assert(t[n].0@ == k);
            if j < n {
                assert(s[j].0@ == k);
            }
            assert(j == n);
        } else {
            assert(j < n);
            assert(s[j].0@ == k);
            assert(entries_have(s, k));
            let j2 = entries_pos(s, k);
            assert(t[j2].0@ == k);
            assert(j2 == j);
        }
    }
    assert(entries_map(t) =~= entries_map(s).insert(e.0@, e.1));
    assert(entries_keys(t) =~= entries_keys(s).push(e.0@));
}

proof fn lemma_entries_remove<V>(s: Seq<(String, V)>, i: int)
    requires
        entries_distinct(s),
        0 <= i < s.len(),
    ensures
        entries_distinct(s.remove(i)),
        entries_map(s.remove(i)) == entries_map(s).remove(s[i].0@),
        entries_keys(s.remove(i)) == entries_keys(s).remove(i),
{
    let t = s.remove(i);
    let k0 = s[i].0@;
    assert forall|a: int, b: int| 0 <= a < t.len() && 0 <= b < t.len() && a != b implies #[trigger] t[a].0@
        != #[trigger] t[b].0@ by {
        let a2 = if a < i { a } else { a + 1 };
        let b2 = if b < i { b } else { b + 1 };
        assert(t[a] == s[a2]);
        assert(t[b] == s[b2]);
    }
    assert forall|k: Seq<char>| #[trigger] entries_have(t, k) == entries_map(s).remove(k0).contains_key(k) by {
        if entries_have(t, k) {
            let j = entries_pos(t, k);
            let j2 = if j < i { j } else { j + 1 };
            assert(t[j] == s[j2]);
            assert(entries_have(s, k));
            assert(j2 != i);
        }
        if entries_have(s, k) && k != k0 {
            let j = entries_pos(s, k);
            assert(j != i);
            let j2 = if j < i { j } else { j - 1 };
            assert(t[j2] == s[j]);
        }
    }
    assert forall|k: Seq<char>| entries_have(t, k) implies entries_map(t)[k] == entries_map(s).remove(k0)[k] by {
        let j = entries_pos(t, k);
        let j2 = if j < i { j } else { j + 1 };
        assert(t[j] == s[j2]);
        assert(entries_have(s, k));
        let j3 = entries_pos(s, k);
        assert(s[j2].0@ == k);
        assert(j3 == j2);
    }
    assert(entries_map(t) =~= entries_map(s).remove(k0));
    assert(entries_keys(t) =~= entries_keys(s).remove(i));
}

/// A map from string keys to values; every key occurs at most once.
#[derive(Debug)]
pub struct StrMap<V> {
    entries: Vec<(String, V)>,
}

impl<V> StrMap<V> {
    /// The keys in insertion order.
    pub closed spec fn keys(&self) -> Seq<Seq<char>> {
        entries_keys(self.entries@)
    }

    /// The value stored with the `i`-th key.
    pub closed spec fn value_at_spec(&self, i: int) -> V {
        self.entries@[i].1
    }

    /// Keys occur at most once.
    #[verifier::type_invariant]
    pub closed spec fn wf(&self) -> bool {
        entries_distinct(self.entries@)
    }

    /// Facts that tie the key sequence to the map: each listed key is in the map and
    /// maps to the value stored beside it, keys are distinct, and only listed keys occur.
    pub proof fn lemma_keys(&self)
        requires
            self.wf(),
        ensures
            forall|i: int|
                0 <= i < self.keys().len() ==> #[trigger] self@.contains_key(self.keys()[i])
                    && self@[self.keys()[i]] == self.value_at_spec(i),
            forall|i: int, j: int|
                0 <= i < self.keys().len() && 0 <= j < self.keys().len() && i != j
                    ==> #[trigger] self.keys()[i] != #[trigger] self.keys()[j],
            forall|k: Seq<char>| #[trigger] self@.contains_key(k) ==> self.keys().contains(k),
            self@.dom() == self.keys().to_set(),
    {
        let s = self.entries@;
        assert forall|i: int| 0 <= i < self.keys().len() implies #[trigger] self@.contains_key(
            self.keys()[i],
        ) && self@[self.keys()[i]] == self.value_at_spec(i) by {
            lemma_entries_lookup(s, i);
        }
        assert forall|k: Seq<char>| #[trigger] self@.contains_key(k) implies self.keys().contains(
            k,
        ) by {
            let i = entries_pos(s, k);
            assert(self.keys()[i] == k);
        }
        assert(self@.dom() =~= self.keys().to_set());
    }

    /// Creates an empty map.
    pub fn new() -> (m: Self)
        ensures
            m@ == Map::<Seq<char>, V>::empty(),
            m.keys() == Seq::<Seq<char>>::empty(),
    {
        let m = StrMap { entries: Vec::new() };
        assert(m@ =~= Map::<Seq<char>, V>::empty());
        assert(m.keys() =~= Seq::<Seq<char>>::empty());
        m
    }

    /// Number of keys.
    pub fn len(&self) -> (n: usize)
        ensures
            n == self.keys().len(),
    {
        self.entries.len()
    }

    /// Position of `key` among the keys, if present.
    pub fn find(&self, key: &str) -> (r: Option<usize>)
        ensures
            r is None <==> !self@.contains_key(key@),
            r matches Some(i) ==> i < self.keys().len() && self.keys()[i as int] == key@,
    {
        let k = String::from_str(key);
        let mut i: usize = 0;
        while i < self.entries.len()
            invariant
                0 <= i <= self.entries@.len(),
                k@ == key@,
                forall|j: int| 0 <= j < i ==> self.entries@[j].0@ != key@,
            decreases self.entries@.len() - i,
        {
            if self.entries[i].0 == k {
                assert(self.keys()[i as int] == key@);
                assert(entries_have(self.entries@, key@));
                return Some(i);
            }
            i = i + 1;
        }
        proof {
            if entries_have(self.entries@, key@) {
                let j = entries_pos(self.entries@, key@);
                assert(self.entries@[j].0@ == key@);
            }
        }
        None
    }

    /// Whether `key` is present.
    pub fn contains_key(&self, key: &str) -> (b: bool)
        ensures
            b == self@.contains_key(key@),
    {
        self.find(key).is_some()
    }

    /// The value stored under `key`.
    pub fn get(&self, key: &str) -> (r: Option<&V>)
        ensures
            r is Some <==> self@.contains_key(key@),
            r matches Some(v) ==> *v == self@[key@],
    {
        proof { use_type_invariant(self); }
        match self.find(key) {
            Some(i) => {
                proof { lemma_entries_lookup(self.entries@, i as int); }
                Some(&self.entries[i].1)
            },
            None => None,
        }
    }

    /// The `i`-th key.
    pub fn key_at(&self, i: usize) -> (k: &String)
        requires
            i < self.keys().len(),
        ensures
            k@ == self.keys()[i as int],
    {
        &self.entries[i].0
    }

    /// The value stored with the `i`-th key.
    pub fn value_at(&self, i: usize) -> (v: &V)
        requires
            i < self.keys().len(),
        ensures
            *v == self.value_at_spec(i as int),
            *v == self@[self.keys()[i as int]],
    {
        proof {
            use_type_invariant(self);
            lemma_entries_lookup(self.entries@, i as int);
        }
        &self.entries[i].1
    }

    /// Stores `value` under `key`, returning the value it replaces.
    /// A new key goes to the end of the key order; an existing key keeps its place.
    pub fn insert(&mut self, key: String, value: V) -> (old_value: Option<V>)
        ensures
            final(self)@ == old(self)@.insert(key@, value),
            old_value is Some <==> old(self)@.contains_key(key@),
            old_value matches Some(v) ==> v == old(self)@[key@],
            old(self)@.contains_key(key@) ==> final(self).keys() == old(self).keys(),
            !old(self)@.contains_key(key@) ==> final(self).keys() == old(self).keys().push(
                key@,
            ),
    {
        proof { use_type_invariant(&*self); }
        let found = self.find(key.as_str());
        let mut entries: Vec<(String, V)> = Vec::new();
        std::mem::swap(&mut entries, &mut self.entries);
        let ghost oe = entries@;
        match found {
            Some(i) => {
                let ghost kv = key@;
                let entry = entries.remove(i);
                entries.insert(i, (key, value));
                proof {
                    assert(entries@ =~= oe.update(i as int, entries@[i as int]));
                    lemma_entries_lookup(oe, i as int);
                    lemma_entries_update(oe, i as int, entries@[i as int]);
                }
                self.entries = entries;
                Some(entry.1)
            },
            None => {
                let ghost kv = key@;
                entries.push((key, value));
                proof {
                    assert(entries@ =~= oe.push(entries@.last()));
                    lemma_entries_push(oe, entries@.last());
                }
                self.entries = entries;
                None
            },
        }
    }

    /// Removes `key`, returning its value. The other keys keep their order.
    pub fn remove(&mut self, key: &str) -> (old_value: Option<V>)
        ensures
            final(self)@ == old(self)@.remove(key@),
            old_value is Some <==> old(self)@.contains_key(key@),
            old_value matches Some(v) ==> v == old(self)@[key@],
            old(self)@.contains_key(key@) ==> final(self).keys().len() + 1 == old(self).keys().len(),
            !old(self)@.contains_key(key@) ==> final(self).keys() == old(self).keys(),
    {
        proof { use_type_invariant(&*self); }
        match self.find(key) {
            Some(i) => {
                let mut entries: Vec<(String, V)> = Vec::new();
                std::mem::swap(&mut entries, &mut self.entries);
                let ghost oe = entries@;
                let entry = entries.remove(i);
                proof {
                    lemma_entries_lookup(oe, i as int);
                    lemma_entries_remove(oe, i as int);
                }
                self.entries = entries;
                Some(entry.1)
            },
            None => {
                proof { assert(entries_map(self.entries@) =~= entries_map(self.entries@).remove(key@)); }
                None
            },
        }
    }

    /// Replaces the value stored with the `i`-th key, returning the previous one. The keys
    /// and their order are unchanged.
    pub fn replace_value(&mut self, i: usize, value: V) -> (prev: V)
        requires
            i < old(self).keys().len(),
        ensures
            final(self)@ == old(self)@.insert(old(self).keys()[i as int], value),
            final(self).keys() == old(self).keys(),
            prev == old(self)@[old(self).keys()[i as int]],
    {
        proof { use_type_invariant(&*self); }
        let mut entries: Vec<(String, V)> = Vec::new();
        std::mem::swap(&mut entries, &mut self.entries);
        let ghost oe = entries@;
        let entry = entries.remove(i);
        entries.insert(i, (entry.0, value));
        proof {
            assert(entries@ =~= oe.update(i as int, entries@[i as int]));
            lemma_entries_lookup(oe, i as int);
            lemma_entries_update(oe, i as int, entries@[i as int]);
        }
        self.entries = entries;
        entry.1
    }

    /// Removes every key.
    pub fn clear(&mut self)
        ensures
            final(self)@ == Map::<Seq<char>, V>::empty(),
            final(self).keys() == Seq::<Seq<char>>::empty(),
    {
        self.entries = Vec::new();
        proof {
            assert(self@ =~= Map::<Seq<char>, V>::empty());
            assert(self.keys() =~= Seq::<Seq<char>>::empty());
        }
    }
}

impl StrMap<String> {
    /// A copy of this map, with the same keys in the same order.
    pub fn duplicate(&self) -> (r: StrMap<String>)
        ensures
            r@ == self@,
            r.keys() == self.keys(),
            forall|i: int| 0 <= i < self.keys().len() ==> #[trigger] r.value_at_spec(i) == self.value_at_spec(i),
    {
        proof { use_type_invariant(self); }
        let mut entries: Vec<(String, String)> = Vec::new();
        let mut i: usize = 0;
        while i < self.entries.len()
            invariant
                i <= self.entries@.len(),
                entries@ == self.entries@.take(i as int),
            decreases self.entries@.len() - i,
        {
            entries.push((self.entries[i].0.clone(), self.entries[i].1.clone()));
            i = i + 1;
            assert(entries@ =~= self.entries@.take(i as int));
        }
        assert(entries@ =~= self.entries@);
        StrMap { entries }
    }
}

impl StrMap<crate::event::MetaValue> {
    /// A copy of this map, with the same keys in the same order.
    pub fn duplicate(&self) -> (r: StrMap<crate::event::MetaValue>)
        ensures
            r@ == self@,
            r.keys() == self.keys(),
    {
        proof { use_type_invariant(self); }
        let mut entries: Vec<(String, crate::event::MetaValue)> = Vec::new();
        let mut i: usize = 0;
        while i < self.entries.len()
            invariant
                i <= self.entries@.len(),
                entries@ == self.entries@.take(i as int),
            decreases self.entries@.len() - i,
        {
            entries.push((self.entries[i].0.clone(), self.entries[i].1.duplicate()));
            i = i + 1;
            assert(entries@ =~= self.entries@.take(i as int));
        }
        assert(entries@ =~= self.entries@);
        StrMap { entries }
    }
}

impl<V> View for StrMap<V> {
    type V = Map<Seq<char>, V>;

    closed spec fn view(&self) -> Map<Seq<char>, V> {
        entries_map(self.entries@)
    }
}

} // verus!
