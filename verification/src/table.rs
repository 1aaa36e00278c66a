//! A string-keyed table with a fixed walking order.

use vstd::prelude::*;
use crate::strings::str_eq;

verus! {

/// A mapping from strings to values, kept as a list of entries.
///
/// A key is looked up from the front, so of two entries with one key the
/// earlier one is the table's entry; `insert` never adds such a pair.
#[derive(Debug, Clone)]
pub struct StringMap<V> {
    pub entries: Vec<(String, V)>,
}

/// The index of the first entry of `entries` whose key is `key`, if any.
pub open spec fn first_index<V>(entries: Seq<(String, V)>, key: Seq<char>) -> Option<int>
    decreases entries.len(),
{
    if entries.len() == 0 {
        None
    } else if entries[0].0@ == key {
        Some(0int)
    } else {
        match first_index(entries.drop_first(), key) {
            Some(i) => Some(i + 1),
            None => None,
        }
    }
}

/// `first_index` finds an index exactly when some entry has the key, and
/// then the least such index.
pub proof fn lemma_first_index<V>(entries: Seq<(String, V)>, key: Seq<char>)
    ensures
        match first_index(entries, key) {
            Some(i) => 0 <= i < entries.len() && entries[i].0@ == key && forall|j: int|
                0 <= j < i ==> entries[j].0@ != key,
            None => forall|j: int| 0 <= j < entries.len() ==> entries[j].0@ != key,
        },
    decreases entries.len(),
{
    if entries.len() == 0 {
    } else if entries[0].0@ == key {
    } else {
        let rest = entries.drop_first();
        lemma_first_index(rest, key);
        match first_index(rest, key) {
            Some(i) => {
                assert forall|j: int| 0 <= j < i + 1 implies entries[j].0@ != key by {
                    if j > 0 {
                        assert(rest[j - 1] == entries[j]);
                    }
                }
            },
            None => {
                assert forall|j: int| 0 <= j < entries.len() implies entries[j].0@ != key by {
                    if j > 0 {
                        assert(rest[j - 1] == entries[j]);
                    }
                }
            },
        }
    }
}

/// An index with the key before which no entry has it is the first index.
pub proof fn lemma_first_index_is<V>(entries: Seq<(String, V)>, key: Seq<char>, i: int)
    requires
        0 <= i < entries.len(),
        entries[i].0@ == key,
        forall|j: int| 0 <= j < i ==> entries[j].0@ != key,
    ensures
        first_index(entries, key) == Some(i),
{
    lemma_first_index(entries, key);
}

/// No entry with the key means no first index.
pub proof fn lemma_first_index_none<V>(entries: Seq<(String, V)>, key: Seq<char>)
    requires
        forall|j: int| 0 <= j < entries.len() ==> entries[j].0@ != key,
    ensures
        first_index(entries, key) is None,
{
    lemma_first_index(entries, key);
}

impl<V> StringMap<V> {
    /// Whether the table has an entry for `key`.
    pub open spec fn has(&self, key: Seq<char>) -> bool {
        first_index(self.entries@, key) is Some
    }

    /// The value that the table holds for `key`.
    pub open spec fn value(&self, key: Seq<char>) -> V
        recommends
            self.has(key),
    {
        self.entries@[first_index(self.entries@, key).unwrap()].1
    }

    /// The value for `key`, if the table has one.
    pub open spec fn lookup(&self, key: Seq<char>) -> Option<V> {
        if self.has(key) {
            Some(self.value(key))
        } else {
            None
        }
    }

    /// An empty table.
    pub fn new() -> (table: Self)
        ensures
            table.entries@.len() == 0,
            forall|key: Seq<char>| !table.has(key),
    {
        StringMap { entries: Vec::new() }
    }

    /// The number of entries.
    pub fn len(&self) -> (n: usize)
        ensures
            n == self.entries@.len(),
    {
        self.entries.len()
    }

    /// The position of the entry for `key`.
    pub fn position(&self, key: &str) -> (found: Option<usize>)
        ensures
            match found {
                Some(i) => i < self.entries@.len() && first_index(self.entries@, key@) == Some(
                    i as int,
                ),
                None => first_index(self.entries@, key@) is None,
            },
    {
        let mut i: usize = 0;
        while i < self.entries.len()
            invariant
                i <= self.entries@.len(),
                forall|j: int| 0 <= j < i ==> self.entries@[j].0@ != key@,
            decreases self.entries@.len() - i,
        {
            if str_eq(self.entries[i].0.as_str(), key) {
                proof {
                    lemma_first_index_is(self.entries@, key@, i as int);
                }
                return Some(i);
            }
            i += 1;
        }
        proof {
            lemma_first_index_none(self.entries@, key@);
        }
        None
    }

    /// Whether the table has an entry for `key`.
    pub fn contains_key(&self, key: &str) -> (found: bool)
        ensures
            found == self.has(key@),
    {
        self.position(key).is_some()
    }

    /// The value for `key`, if the table has one.
    pub fn get(&self, key: &str) -> (found: Option<&V>)
        ensures
            match found {
                Some(v) => self.lookup(key@) == Some(*v),
                None => self.lookup(key@) is None,
            },
    {
        match self.position(key) {
            Some(i) => Some(&self.entries[i].1),
            None => None,
        }
    }

    /// Sets `key` to `value`: the key's entry is overwritten where it
    /// stands, or a new entry is added at the end. No other key's value
    /// changes.
    pub fn insert(&mut self, key: String, value: V)
        ensures
            final(self).lookup(key@) == Some(value),
            forall|other: Seq<char>|
                other != key@ ==> final(self).lookup(other) == old(self).lookup(other),
            match first_index(old(self).entries@, key@) {
                Some(i) => final(self).entries@ == old(self).entries@.update(i, (key, value)),
                None => final(self).entries@ == old(self).entries@.push((key, value)),
            },
    {
        let found = self.position(key.as_str());
        let ghost before = self.entries@;
        let ghost k = key@;
        match found {
            Some(i) => {
                self.entries.set(i, (key, value));
            },
            None => {
                self.entries.push((key, value));
            },
        }
        proof {
            let after = self.entries@;
            lemma_first_index(before, k);
            assert forall|other: Seq<char>|
                first_index(after, other) == (if other == k {
                    match first_index(before, k) {
                        Some(i) => Some(i),
                        None => Some(before.len() as int),
                    }
                } else {
                    first_index(before, other)
                }) by {
                lemma_first_index(before, other);
                if other == k {
                    match first_index(before, k) {
                        Some(i) => lemma_first_index_is(after, other, i),
                        None => lemma_first_index_is(after, other, before.len() as int),
                    }
                } else {
                    match first_index(before, other) {
                        Some(j) => lemma_first_index_is(after, other, j),
                        None => lemma_first_index_none(after, other),
                    }
                }
            }
            assert forall|other: Seq<char>| other != k implies self.lookup(other) == old(
                self,
            ).lookup(other) by {
                lemma_first_index(before, other);
            }
        }
    }

    /// The key of the entry at `index`.
    pub fn key_at(&self, index: usize) -> (key: &str)
        requires
            index < self.entries@.len(),
        ensures
            key@ == self.entries@[index as int].0@,
    {
        self.entries[index].0.as_str()
    }

    /// The value of the entry at `index`.
    pub fn value_at(&self, index: usize) -> (value: &V)
        requires
            index < self.entries@.len(),
        ensures
            *value == self.entries@[index as int].1,
    {
        &self.entries[index].1
    }
}

impl StringMap<String> {
    /// The table as a map from keys to texts.
    pub open spec fn texts(&self) -> Map<Seq<char>, Seq<char>> {
        Map::new(|key: Seq<char>| self.has(key), |key: Seq<char>| self.value(key)@)
    }

    /// The text for `key`, if the table has one.
    pub fn text(&self, key: &str) -> (found: Option<&str>)
        ensures
            match found {
                Some(t) => self.texts().contains_key(key@) && self.texts()[key@] == t@,
                None => !self.texts().contains_key(key@),
            },
    {
        match self.get(key) {
            Some(value) => Some(value.as_str()),
            None => None,
        }
    }

    /// Sets the text for `key`; every other key keeps its text.
    pub fn set_text(&mut self, key: String, value: String)
        ensures
            final(self).texts() == old(self).texts().insert(key@, value@),
    {
        let ghost k = key@;
        let ghost v = value@;
        self.insert(key, value);
        assert forall|other: Seq<char>| #[trigger]
            self.texts().contains_key(other) == old(self).texts().insert(k, v).contains_key(
                other,
            ) && (self.texts().contains_key(other) ==> self.texts()[other] == old(
                self,
            ).texts().insert(k, v)[other]) by {
            if other != k {
                assert(self.lookup(other) == old(self).lookup(other));
            }
        }
        assert(self.texts() =~= old(self).texts().insert(k, v));
    }

    /// A copy of the table: the same entries in the same order.
    pub fn duplicate(&self) -> (copy: Self)
        ensures
            copy.entries@ == self.entries@,
            copy.texts() == self.texts(),
    {
        let mut entries: Vec<(String, String)> = Vec::new();
        let mut i: usize = 0;
        while i < self.entries.len()
            invariant
                i <= self.entries@.len(),
                entries@ == self.entries@.take(i as int),
            decreases self.entries@.len() - i,
        {
            let key = self.entries[i].0.clone();
            let value = self.entries[i].1.clone();
            assert(self.entries@.take(i + 1) == self.entries@.take(i as int).push((key, value)));
            entries.push((key, value));
            i += 1;
        }
        assert(self.entries@.take(self.entries@.len() as int) == self.entries@);
        let copy = StringMap { entries };
        assert(copy.texts() =~= self.texts());
        copy
    }

    /// Takes over every entry of `fresh`, overwriting the texts of keys
    /// that both tables hold and keeping those of all others.
    pub fn merge_from(&mut self, fresh: &StringMap<String>)
        ensures
            final(self).texts() == old(self).texts().union_prefer_right(fresh.texts()),
    {
        let mut i: usize = fresh.entries.len();
        // Walk from the back, so that of two entries of `fresh` with one
        // key the earlier one, which is the one `fresh` holds, is set last.
        while i > 0
            invariant
                i <= fresh.entries@.len(),
                forall|key: Seq<char>| #[trigger]
                    self.texts().contains_key(key) == (old(self).texts().contains_key(key)
                        || first_index(fresh.entries@.skip(i as int), key) is Some),
                forall|key: Seq<char>| #[trigger]
                    self.texts().contains_key(key) ==> self.texts()[key] == (match first_index(
                        fresh.entries@.skip(i as int),
                        key,
                    ) {
                        Some(j) => fresh.entries@.skip(i as int)[j].1@,
                        None => old(self).texts()[key],
                    }),
            decreases i,
        {
            i -= 1;
            let key = fresh.entries[i].0.clone();
            let value = fresh.entries[i].1.clone();
            let ghost before = self.texts();
            self.set_text(key, value);
            proof {
                let tail = fresh.entries@.skip(i as int);
                let shorter = fresh.entries@.skip(i + 1);
                assert(tail.drop_first() =~= shorter);
                assert(tail[0] == fresh.entries@[i as int]);
                assert forall|k: Seq<char>| #[trigger]
                    self.texts().contains_key(k) implies self.texts()[k] == (match first_index(
                    tail,
                    k,
                ) {
                    Some(j) => tail[j].1@,
                    None => old(self).texts()[k],
                }) by {
                    if k == key@ {
                    } else {
                        assert(before.contains_key(k));
                        lemma_first_index(shorter, k);
                        match first_index(shorter, k) {
                            Some(j) => {
                                assert(tail[j + 1] == shorter[j]);
                            },
                            None => {},
                        }
                    }
                }
            }
        }
        proof {
            assert(fresh.entries@.skip(0) =~= fresh.entries@);
            assert(self.texts() =~= old(self).texts().union_prefer_right(fresh.texts()));
        }
    }
}

} // verus!
