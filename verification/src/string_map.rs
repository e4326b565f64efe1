//! A map from strings to strings that keeps its entries in the order in
//! which their keys first came.

use vstd::prelude::*;
use vstd::string::StringExecFns;

verus! {

/// A key with its value, both as sequences of characters.
pub type Entry = (Seq<char>, Seq<char>);

/// The map that a list of entries stands for: a later entry replaces an
/// earlier one of the same key.
pub open spec fn entries_map(s: Seq<Entry>) -> Map<Seq<char>, Seq<char>>
    decreases s.len(),
{
    if s.len() == 0 {
        Map::empty()
    } else {
        entries_map(s.drop_last()).insert(s.last().0, s.last().1)
    }
}

/// Some entry of the list has the key `k`.
pub open spec fn has_key(s: Seq<Entry>, k: Seq<char>) -> bool {
    exists|i: int| 0 <= i < s.len() && (#[trigger] s[i]).0 == k
}

/// No two entries of the list share a key.
pub open spec fn keys_distinct(s: Seq<Entry>) -> bool {
    forall|i: int, j: int| 0 <= i < j < s.len() ==> (#[trigger] s[i]).0 != (#[trigger] s[j]).0
}

/// The keys of the map are the keys of the list.
pub proof fn lemma_entries_map_dom(s: Seq<Entry>, k: Seq<char>)
    ensures
        entries_map(s).contains_key(k) <==> has_key(s, k),
    decreases s.len(),
{
    if s.len() > 0 {
        let t = s.drop_last();
        lemma_entries_map_dom(t, k);
        if has_key(t, k) {
            let i = choose|i: int| 0 <= i < t.len() && (#[trigger] t[i]).0 == k;
            assert(s[i] == t[i]);
        }
        if has_key(s, k) {
            let i = choose|i: int| 0 <= i < s.len() && (#[trigger] s[i]).0 == k;
            if i < s.len() - 1 {
                assert(t[i] == s[i]);
            }
        }
    }
}

/// Where keys are distinct, each entry's value is the map's value at its key.
pub proof fn lemma_entries_map_value(s: Seq<Entry>, i: int)
    requires
        keys_distinct(s),
        0 <= i < s.len(),
    ensures
        entries_map(s).contains_key(s[i].0),
        entries_map(s)[s[i].0] == s[i].1,
    decreases s.len(),
{
    let t = s.drop_last();
    if i < s.len() - 1 {
        assert(keys_distinct(t)) by {
            assert forall|a: int, b: int| 0 <= a < b < t.len() implies (#[trigger] t[a]).0 != (
            #[trigger] t[b]).0 by {
                assert(t[a] == s[a] && t[b] == s[b]);
            }
        }
        lemma_entries_map_value(t, i);
        assert(t[i] == s[i]);
        assert(s[i].0 != s[s.len() - 1].0);
    }
}

/// Appending an entry inserts it into the map.
pub proof fn lemma_entries_map_push(s: Seq<Entry>, e: Entry)
    ensures
        entries_map(s.push(e)) == entries_map(s).insert(e.0, e.1),
{
    assert(s.push(e).drop_last() == s);
}

/// Where keys are distinct, replacing the value of an entry inserts the new
/// value at its key.
pub proof fn lemma_entries_map_update(s: Seq<Entry>, i: int, v: Seq<char>)
    requires
        keys_distinct(s),
        0 <= i < s.len(),
    ensures
        entries_map(s.update(i, (s[i].0, v))) == entries_map(s).insert(s[i].0, v),
        keys_distinct(s.update(i, (s[i].0, v))),
    decreases s.len(),
{
    let e = (s[i].0, v);
    let u = s.update(i, e);
    let t = s.drop_last();
    assert(keys_distinct(u)) by {
        assert forall|a: int, b: int| 0 <= a < b < u.len() implies (#[trigger] u[a]).0 != (
        #[trigger] u[b]).0 by {
            assert(u[a].0 == s[a].0 && u[b].0 == s[b].0);
        }
    }
    if i == s.len() - 1 {
        assert(u.drop_last() == t);
        assert(entries_map(u) == entries_map(s).insert(s[i].0, v));
    } else {
        assert(keys_distinct(t)) by {
            assert forall|a: int, b: int| 0 <= a < b < t.len() implies (#[trigger] t[a]).0 != (
            #[trigger] t[b]).0 by {
                assert(t[a] == s[a] && t[b] == s[b]);
            }
        }
        assert(t[i] == s[i]);
        lemma_entries_map_update(t, i, v);
        assert(u.drop_last() == t.update(i, e));
        assert(u.last() == s.last());
        assert(s[i].0 != s[s.len() - 1].0);
        assert(entries_map(u) == entries_map(s).insert(s[i].0, v));
    }
}

/// Where keys are distinct, the map has as many keys as the list has entries.
pub proof fn lemma_entries_map_len(s: Seq<Entry>)
    requires
        keys_distinct(s),
    ensures
        entries_map(s).dom().finite(),
        entries_map(s).dom().len() == s.len(),
    decreases s.len(),
{
    if s.len() > 0 {
        let t = s.drop_last();
        assert(keys_distinct(t)) by {
            assert forall|a: int, b: int| 0 <= a < b < t.len() implies (#[trigger] t[a]).0 != (
            #[trigger] t[b]).0 by {
                assert(t[a] == s[a] && t[b] == s[b]);
            }
        }
        lemma_entries_map_len(t);
        lemma_entries_map_dom(t, s.last().0);
        if has_key(t, s.last().0) {
            let i = choose|i: int| 0 <= i < t.len() && (#[trigger] t[i]).0 == s.last().0;
            assert(t[i] == s[i]);
            assert(s[i].0 != s[s.len() - 1].0);
        }
    }
}

/// The entries of a vector of string pairs, each string by its characters.
pub open spec fn pairs_view(v: Seq<(String, String)>) -> Seq<Entry> {
    v.map_values(|e: (String, String)| (e.0@, e.1@))
}

/// A map from strings to strings.
///
/// Entries stay in the order in which their keys were first inserted, so a
/// walk over the map always meets them in the same order.
#[derive(Debug)]
pub struct StringMap {
    entries: Vec<(String, String)>,
}

impl View for StringMap {
    type V = Map<Seq<char>, Seq<char>>;

    open spec fn view(&self) -> Map<Seq<char>, Seq<char>> {
        entries_map(self.spec_entries())
    }
}

impl StringMap {
    /// No key occurs twice.
    #[verifier::type_invariant]
    closed spec fn inv(&self) -> bool {
        keys_distinct(pairs_view(self.entries@))
    }

    /// The entries in the order of the map.
    pub closed spec fn spec_entries(&self) -> Seq<Entry> {
        pairs_view(self.entries@)
    }

    /// The entries hold each key of the map once, with its value.
    proof fn lemma_entries(&self)
        requires
            self.inv(),
        ensures
            keys_distinct(self.spec_entries()),
            self@ == entries_map(self.spec_entries()),
            self@.dom().finite(),
            self@.dom().len() == self.spec_entries().len(),
            forall|k: Seq<char>| self@.contains_key(k) <==> has_key(self.spec_entries(), k),
            forall|i: int|
                0 <= i < self.spec_entries().len() ==> self@.contains_key(
                    (#[trigger] self.spec_entries()[i]).0,
                ) && self@[self.spec_entries()[i].0] == self.spec_entries()[i].1,
    {
        let s = self.spec_entries();
        lemma_entries_map_len(s);
        assert forall|k: Seq<char>| self@.contains_key(k) <==> has_key(s, k) by {
            lemma_entries_map_dom(s, k);
        }
        assert forall|i: int| 0 <= i < s.len() implies self@.contains_key((#[trigger] s[i]).0)
            && self@[s[i].0] == s[i].1 by {
            lemma_entries_map_value(s, i);
        }
    }

    /// An empty map.
    pub fn new() -> (m: StringMap)
        ensures
            m@ == Map::<Seq<char>, Seq<char>>::empty(),
            m.spec_entries() == Seq::<Entry>::empty(),
    {
        let m = StringMap { entries: Vec::new() };
        assert(m.spec_entries() == Seq::<Entry>::empty());
        m
    }

    /// The number of entries.
    pub fn len(&self) -> (n: usize)
        ensures
            n == self@.dom().len(),
            n == self.spec_entries().len(),
    {
        proof {
            use_type_invariant(self);
            self.lemma_entries();
        }
        self.entries.len()
    }

    /// Whether the map has no entry.
    pub fn is_empty(&self) -> (e: bool)
        ensures
            e == (self@ == Map::<Seq<char>, Seq<char>>::empty()),
            e == (self.spec_entries().len() == 0),
    {
        proof {
            use_type_invariant(self);
            self.lemma_entries();
            if self.spec_entries().len() == 0 {
                assert(self@ == Map::<Seq<char>, Seq<char>>::empty());
            } else {
                assert(self@.contains_key(self.spec_entries()[0].0));
            }
        }
        self.entries.len() == 0
    }

    /// The place of `key` among the entries, if the map has it.
    fn position(&self, key: &String) -> (p: Option<usize>)
        ensures
            match p {
                Some(i) => i < self.spec_entries().len() && self.spec_entries()[i as int].0 == key@,
                None => !has_key(self.spec_entries(), key@),
            },
    {
        let mut i: usize = 0;
        while i < self.entries.len()
            invariant
                i <= self.entries.len(),
                forall|j: int| 0 <= j < i ==> (#[trigger] self.spec_entries()[j]).0 != key@,
            decreases self.entries.len() - i,
        {
            if self.entries[i].0 == *key {
                return Some(i);
            }
            i += 1;
        }
        None
    }

    /// The value at `key`, if the map has that key.
    pub fn get(&self, key: &str) -> (v: Option<&String>)
        ensures
            match v {
                Some(s) => self@.contains_key(key@) && s@ == self@[key@],
                None => !self@.contains_key(key@),
            },
    {
        proof {
            use_type_invariant(self);
            self.lemma_entries();
        }
        let k = String::from_str(key);
        match self.position(&k) {
            Some(i) => Some(&self.entries[i].1),
            None => None,
        }
    }

    /// Whether the map has `key`.
    pub fn contains_key(&self, key: &str) -> (b: bool)
        ensures
            b == self@.contains_key(key@),
    {
        proof {
            use_type_invariant(self);
            self.lemma_entries();
        }
        let k = String::from_str(key);
        self.position(&k).is_some()
    }

    /// Puts `value` at `key`. A key that the map already has keeps its place
    /// among the entries; a new key goes to the end.
    pub fn insert(&mut self, key: String, value: String)
        ensures
            final(self)@ == old(self)@.insert(key@, value@),
            has_key(old(self).spec_entries(), key@) ==> exists|i: int|
                0 <= i < old(self).spec_entries().len() && (#[trigger] old(
                    self,
                ).spec_entries()[i]).0 == key@ && final(self).spec_entries() == old(
                    self,
                ).spec_entries().update(i, (key@, value@)),
            !has_key(old(self).spec_entries(), key@) ==> final(self).spec_entries() == old(
                self,
            ).spec_entries().push((key@, value@)),
    {
        proof {
            use_type_invariant(&*self);
        }
        let ghost before = self.spec_entries();
        let found = self.position(&key);
        let mut taken = StringMap::new();
        core::mem::swap(self, &mut taken);
        let mut entries = taken.entries;
        match found {
            Some(i) => {
                proof {
                    lemma_entries_map_update(before, i as int, value@);
                }
                entries.set(i, (key, value));
                assert(pairs_view(entries@) == before.update(
                    i as int,
                    (before[i as int].0, value@),
                ));
            },
            None => {
                proof {
                    lemma_entries_map_push(before, (key@, value@));
                    assert(keys_distinct(before.push((key@, value@))));
                }
                entries.push((key, value));
                assert(pairs_view(entries@) == before.push((key@, value@)));
            },
        }
        *self = StringMap { entries };
    }

    /// The entries in the order of the map: each key of the map once, with
    /// its value.
    pub fn entries(&self) -> (v: &Vec<(String, String)>)
        ensures
            pairs_view(v@) == self.spec_entries(),
            keys_distinct(self.spec_entries()),
            forall|k: Seq<char>| self@.contains_key(k) <==> has_key(self.spec_entries(), k),
            forall|i: int|
                0 <= i < self.spec_entries().len() ==> self@.contains_key(
                    (#[trigger] self.spec_entries()[i]).0,
                ) && self@[self.spec_entries()[i].0] == self.spec_entries()[i].1,
    {
        proof {
            use_type_invariant(self);
            self.lemma_entries();
        }
        &self.entries
    }
}

impl Clone for StringMap {
    fn clone(&self) -> (m: StringMap)
        ensures
            m@ == self@,
            m.spec_entries() == self.spec_entries(),
    {
        proof {
            use_type_invariant(self);
        }
        let mut entries: Vec<(String, String)> = Vec::new();
        let mut i: usize = 0;
        while i < self.entries.len()
            invariant
                i <= self.entries.len(),
                pairs_view(entries@) == pairs_view(self.entries@).subrange(0, i as int),
            decreases self.entries.len() - i,
        {
            let k = self.entries[i].0.clone();
            let v = self.entries[i].1.clone();
            let ghost prefix = pairs_view(entries@);
            entries.push((k, v));
            assert(pairs_view(entries@) =~= prefix.push(pairs_view(self.entries@)[i as int]));
            assert(pairs_view(entries@) =~= pairs_view(self.entries@).subrange(0, i + 1));
            i += 1;
        }
        assert(pairs_view(entries@) =~= pairs_view(self.entries@));
        StringMap { entries }
    }
}

} // verus!
