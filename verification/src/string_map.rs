//! An insertion-ordered mapping from strings to strings.
//!
//! Request parameters, configuration values, headers and flat response
//! objects are all mappings of this kind. The order of the entries is the
//! order in which their keys were first inserted, which is the order in which
//! a query string lists them.

use vstd::prelude::*;
use crate::text::str_equal;

verus! {

/// The model of a mapping: its entries, in insertion order.
pub type Entries = Seq<(Seq<char>, Seq<char>)>;

/// No key occurs in two entries.
pub open spec fn keys_distinct(entries: Entries) -> bool {
    forall|i: int, j: int| 0 <= i < j < entries.len() ==> entries[i].0 != entries[j].0
}

/// Some entry has the given key.
pub open spec fn has_key(entries: Entries, key: Seq<char>) -> bool {
    exists|i: int| 0 <= i < entries.len() && #[trigger] entries[i].0 == key
}

/// The index of an entry with the given key, where there is one.
pub open spec fn index_of(entries: Entries, key: Seq<char>) -> int {
    choose|i: int| 0 <= i < entries.len() && #[trigger] entries[i].0 == key
}

/// The value stored under the given key.
pub open spec fn value_of(entries: Entries, key: Seq<char>) -> Option<Seq<char>> {
    if has_key(entries, key) {
        Some(entries[index_of(entries, key)].1)
    } else {
        None
    }
}

/// The entries after `key` is set to `value`: an existing entry keeps its
/// place and takes the new value, a new key goes to the end.
pub open spec fn with_entry(entries: Entries, key: Seq<char>, value: Seq<char>) -> Entries {
    if has_key(entries, key) {
        entries.update(index_of(entries, key), (key, value))
    } else {
        entries.push((key, value))
    }
}

/// The entries as an unordered mapping.
pub open spec fn as_map(entries: Entries) -> Map<Seq<char>, Seq<char>> {
    Map::new(|k: Seq<char>| has_key(entries, k), |k: Seq<char>| entries[index_of(entries, k)].1)
}

/// Among distinct keys, the value of a key is the value of the one entry
/// that has it.
pub proof fn lemma_entry_at(entries: Entries, i: int)
    requires
        keys_distinct(entries),
        0 <= i < entries.len(),
    ensures
        has_key(entries, entries[i].0),
        index_of(entries, entries[i].0) == i,
        value_of(entries, entries[i].0) == Some(entries[i].1),
        as_map(entries).contains_key(entries[i].0),
        as_map(entries)[entries[i].0] == entries[i].1,
{
    let key = entries[i].0;
    assert(entries[i].0 == key);
    let found = index_of(entries, key);
    if found < i {
        assert(entries[found].0 != entries[i].0);
    } else if i < found {
        assert(entries[i].0 != entries[found].0);
    }
}

/// Setting a key that no entry has adds an entry at the end.
pub proof fn lemma_with_new_key(entries: Entries, key: Seq<char>, value: Seq<char>)
    requires
        forall|i: int| 0 <= i < entries.len() ==> (#[trigger] entries[i]).0 != key,
    ensures
        !has_key(entries, key),
        with_entry(entries, key, value) == entries.push((key, value)),
{
}

/// Setting a key keeps the keys distinct.
pub proof fn lemma_with_entry_distinct(entries: Entries, key: Seq<char>, value: Seq<char>)
    requires
        keys_distinct(entries),
    ensures
        keys_distinct(with_entry(entries, key, value)),
        has_key(with_entry(entries, key, value), key),
        value_of(with_entry(entries, key, value), key) == Some(value),
{
    let after = with_entry(entries, key, value);
    if has_key(entries, key) {
        let at = index_of(entries, key);
        assert(after[at].0 == key);
    } else {
        assert(after[entries.len() as int].0 == key);
        assert forall|i: int, j: int| 0 <= i < j < after.len() implies after[i].0 != after[j].0 by {
            if j == entries.len() {
                assert(entries[i].0 != key);
            }
        }
    }
    let found = index_of(after, key);
    assert(after[found].0 == key);
    if has_key(entries, key) {
        let at = index_of(entries, key);
        assert(found == at) by {
            if found < at {
                assert(after[found].0 != after[at].0);
            } else if at < found {
                assert(after[at].0 != after[found].0);
            }
        }
    } else {
        assert(found == entries.len()) by {
            if found < entries.len() {
                assert(entries[found].0 == key);
            }
        }
    }
}

/// The model of a vector of string pairs.
pub open spec fn pairs_view(pairs: Seq<(String, String)>) -> Entries {
    Seq::new(pairs.len(), |i: int| (pairs[i].0@, pairs[i].1@))
}

/// An insertion-ordered mapping from strings to strings with distinct keys.
#[derive(Debug)]
pub struct StringMap {
    entries: Vec<(String, String)>,
}

impl View for StringMap {
    type V = Entries;

    closed spec fn view(&self) -> Entries {
        pairs_view(self.entries@)
    }
}

impl StringMap {
    #[verifier::type_invariant]
    spec fn well_formed(&self) -> bool {
        keys_distinct(self@)
    }

    /// Does nothing at run time; tells a verified caller that the keys of
    /// this mapping are distinct.
    pub fn note_keys_distinct(&self)
        ensures
            keys_distinct(self@),
    {
        proof {
            use_type_invariant(self);
        }
    }

    /// The empty mapping.
    pub fn new() -> (map: StringMap)
        ensures
            map@ == Seq::<(Seq<char>, Seq<char>)>::empty(),
    {
        let map = StringMap { entries: Vec::new() };
        assert(map@ =~= Seq::<(Seq<char>, Seq<char>)>::empty());
        map
    }

    /// The number of entries.
    pub fn len(&self) -> (n: usize)
        ensures
            n == self@.len(),
    {
        self.entries.len()
    }

    /// Whether the mapping has no entry.
    pub fn is_empty(&self) -> (empty: bool)
        ensures
            empty == (self@.len() == 0),
    {
        self.entries.len() == 0
    }

    /// The position of the entry with the given key.
    fn position(&self, key: &str) -> (at: Option<usize>)
        ensures
            match at {
                Some(i) => i < self@.len() && self@[i as int].0 == key@ && has_key(self@, key@)
                    && index_of(self@, key@) == i,
                None => !has_key(self@, key@),
            },
    {
        proof {
            use_type_invariant(self);
        }
        let mut i: usize = 0;
        while i < self.entries.len()
            invariant
                i <= self.entries@.len(),
                self@.len() == self.entries@.len(),
                keys_distinct(self@),
                forall|j: int| 0 <= j < i ==> self@[j].0 != key@,
            decreases self.entries@.len() - i,
        {
            if str_equal(self.entries[i].0.as_str(), key) {
                proof {
                    assert(self@[i as int].0 == key@);
                    let found = index_of(self@, key@);
                    if found < i {
                        assert(self@[found].0 != self@[i as int].0);
                    } else if i < found {
                        assert(self@[i as int].0 != self@[found].0);
                    }
                }
                return Some(i);
            }
            i = i + 1;
        }
        None
    }

    /// Whether the mapping has an entry for `key`.
    pub fn contains_key(&self, key: &str) -> (found: bool)
        ensures
            found == has_key(self@, key@),
            found == as_map(self@).contains_key(key@),
    {
        self.position(key).is_some()
    }

    /// The value stored under `key`.
    pub fn get(&self, key: &str) -> (value: Option<&String>)
        ensures
            match value {
                Some(v) => value_of(self@, key@) == Some(v@),
                None => value_of(self@, key@) is None,
            },
    {
        match self.position(key) {
            Some(i) => Some(&self.entries[i].1),
            None => None,
        }
    }

    /// Sets `key` to `value` and returns the value that the key had before.
    pub fn insert(&mut self, key: String, value: String) -> (previous: Option<String>)
        ensures
            final(self)@ == with_entry(old(self)@, key@, value@),
            match previous {
                Some(v) => value_of(old(self)@, key@) == Some(v@),
                None => value_of(old(self)@, key@) is None,
            },
    {
        proof {
            use_type_invariant(&*self);
            lemma_with_entry_distinct(self@, key@, value@);
        }
        let at = self.position(key.as_str());
        let mut entries: Vec<(String, String)> = Vec::new();
        core::mem::swap(&mut self.entries, &mut entries);
        let previous = match at {
            Some(i) => {
                let previous = entries[i].1.clone();
                entries.set(i, (key, value));
                Some(previous)
            },
            None => {
                entries.push((key, value));
                None
            },
        };
        proof {
            assert(pairs_view(entries@) =~= with_entry(old(self)@, key@, value@));
        }
        core::mem::swap(&mut self.entries, &mut entries);
        previous
    }

    /// The entries as a vector of pairs, in insertion order.
    pub fn as_pairs(&self) -> (pairs: &Vec<(String, String)>)
        ensures
            pairs_view(pairs@) == self@,
    {
        &self.entries
    }

    /// The key of the entry at position `i`.
    pub fn key_at(&self, i: usize) -> (key: &String)
        requires
            i < self@.len(),
        ensures
            key@ == self@[i as int].0,
    {
        &self.entries[i].0
    }

    /// The value of the entry at position `i`.
    pub fn value_at(&self, i: usize) -> (value: &String)
        requires
            i < self@.len(),
        ensures
            value@ == self@[i as int].1,
    {
        &self.entries[i].1
    }

    /// Whether every entry of this mapping is an entry of the other.
    fn included_in(&self, other: &StringMap) -> (included: bool)
        ensures
            included == (forall|key: Seq<char>| #[trigger]
                has_key(self@, key) ==> value_of(other@, key) == value_of(self@, key)),
    {
        proof {
            use_type_invariant(self);
        }
        let mut i: usize = 0;
        while i < self.entries.len()
            invariant
                i <= self.entries@.len(),
                self@.len() == self.entries@.len(),
                keys_distinct(self@),
                forall|j: int|
                    0 <= j < i ==> value_of(other@, (#[trigger] self@[j]).0) == Some(self@[j].1),
            decreases self.entries@.len() - i,
        {
            proof {
                lemma_entry_at(self@, i as int);
            }
            let same = match other.get(self.entries[i].0.as_str()) {
                Some(value) => *value == self.entries[i].1,
                None => false,
            };
            if !same {
                assert(has_key(self@, self@[i as int].0));
                return false;
            }
            i = i + 1;
        }
        proof {
            assert forall|key: Seq<char>| #[trigger] has_key(self@, key) implies value_of(
                other@,
                key,
            ) == value_of(self@, key) by {
                let at = index_of(self@, key);
                assert(self@[at].0 == key);
            }
        }
        true
    }

    /// Whether the two mappings hold the same values under the same keys,
    /// in whatever order.
    pub fn same_mapping(&self, other: &StringMap) -> (same: bool)
        ensures
            same == (as_map(self@) == as_map(other@)),
    {
        let same = self.included_in(other) && other.included_in(self);
        proof {
            if same {
                assert(as_map(self@) =~= as_map(other@)) by {
                    assert forall|key: Seq<char>| as_map(self@).contains_key(key) implies as_map(
                        other@,
                    ).contains_key(key) && as_map(self@)[key] == as_map(other@)[key] by {
                        assert(has_key(self@, key));
                    }
                    assert forall|key: Seq<char>| as_map(other@).contains_key(key) implies as_map(
                        self@,
                    ).contains_key(key) by {
                        assert(has_key(other@, key));
                    }
                }
            }
            if as_map(self@) == as_map(other@) {
                assert forall|key: Seq<char>| #[trigger] has_key(self@, key) implies value_of(
                    other@,
                    key,
                ) == value_of(self@, key) by {
                    assert(as_map(self@).contains_key(key));
                    assert(as_map(other@).contains_key(key));
                    assert(as_map(self@)[key] == as_map(other@)[key]);
                }
                assert forall|key: Seq<char>| #[trigger] has_key(other@, key) implies value_of(
                    self@,
                    key,
                ) == value_of(other@, key) by {
                    assert(as_map(other@).contains_key(key));
                    assert(as_map(self@).contains_key(key));
                    assert(as_map(self@)[key] == as_map(other@)[key]);
                }
            }
        }
        same
    }
}

impl Clone for StringMap {
    fn clone(&self) -> (copy: StringMap)
        ensures
            copy@ == self@,
    {
        proof {
            use_type_invariant(self);
        }
        let mut entries: Vec<(String, String)> = Vec::new();
        let mut i: usize = 0;
        while i < self.entries.len()
            invariant
                i <= self.entries@.len(),
                entries@.len() == i,
                forall|j: int| 0 <= j < i ==> (#[trigger] entries@[j]).0@ == self.entries@[j].0@
                    && entries@[j].1@ == self.entries@[j].1@,
            decreases self.entries@.len() - i,
        {
            entries.push((self.entries[i].0.clone(), self.entries[i].1.clone()));
            i = i + 1;
        }
        assert(pairs_view(entries@) =~= self@);
        StringMap { entries }
    }
}

impl PartialEq for StringMap {
    fn eq(&self, other: &StringMap) -> (same: bool)
    {
        self.same_mapping(other)
    }
}

impl Eq for StringMap {

}

impl vstd::std_specs::cmp::PartialEqSpecImpl for StringMap {
    open spec fn obeys_eq_spec() -> bool {
        true
    }

    open spec fn eq_spec(&self, other: &StringMap) -> bool {
        as_map(self@) == as_map(other@)
    }
}

} // verus!
