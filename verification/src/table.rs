//! A table keyed by strings that remembers the order in which its keys
//! arrived: lookups go through a hash index, walks go by position.

use vstd::hash_map::StringHashMap;
use vstd::prelude::*;

verus! {

/// The position of the entry with the given key, where there is one.
pub open spec fn position<V>(entries: Seq<(Seq<char>, V)>, key: Seq<char>) -> Option<int> {
    if exists|i: int| 0 <= i < entries.len() && (#[trigger] entries[i]).0 == key {
        Some(choose|i: int| 0 <= i < entries.len() && (#[trigger] entries[i]).0 == key)
    } else {
        None
    }
}

/// The value stored under the given key, where there is one.
pub open spec fn lookup<V>(entries: Seq<(Seq<char>, V)>, key: Seq<char>) -> Option<V> {
    match position(entries, key) {
        Some(i) => Some(entries[i].1),
        None => None,
    }
}

/// No key occurs twice.
pub open spec fn distinct_keys<V>(entries: Seq<(Seq<char>, V)>) -> bool {
    forall|i: int, j: int|
        0 <= i < j < entries.len() ==> (#[trigger] entries[i]).0 != (#[trigger] entries[j]).0
}

/// The entries after an insertion: a key that is present keeps its place and
/// takes the new value, a new key goes to the end.
pub open spec fn inserted<V>(entries: Seq<(Seq<char>, V)>, key: Seq<char>, value: V) -> Seq<
    (Seq<char>, V),
> {
    match position(entries, key) {
        Some(i) => entries.update(i, (key, value)),
        None => entries.push((key, value)),
    }
}

/// Among distinct keys, the entry at `i` is the one its key finds.
pub proof fn lemma_position_of_entry<V>(entries: Seq<(Seq<char>, V)>, i: int)
    requires
        distinct_keys(entries),
        0 <= i < entries.len(),
    ensures
        position(entries, entries[i].0) == Some(i),
        lookup(entries, entries[i].0) == Some(entries[i].1),
{
    let key = entries[i].0;
    let j = choose|j: int| 0 <= j < entries.len() && (#[trigger] entries[j]).0 == key;
    assert(j == i);
}

/// An insertion keeps the keys distinct, stores the value under the key and
/// leaves every other key as it was.
pub proof fn lemma_inserted<V>(entries: Seq<(Seq<char>, V)>, key: Seq<char>, value: V)
    requires
        distinct_keys(entries),
    ensures
        distinct_keys(inserted(entries, key, value)),
        lookup(inserted(entries, key, value), key) == Some(value),
        forall|other: Seq<char>|
            other != key ==> lookup(inserted(entries, key, value), other) == lookup(
                entries,
                other,
            ),
{
    let after = inserted(entries, key, value);
    let at: int = match position(entries, key) {
        Some(i) => i,
        None => entries.len() as int,
    };
    assert(0 <= at < after.len() && after[at] == (key, value));
    assert forall|i: int| 0 <= i < after.len() && i != at implies (#[trigger] after[i])
        == entries[i] && entries[i].0 != key by {
        if position(entries, key) is Some {
            lemma_position_of_entry(entries, i);
        }
    }
    assert(distinct_keys(after));
    lemma_position_of_entry(after, at);
    assert forall|other: Seq<char>| other != key implies lookup(after, other) == lookup(
        entries,
        other,
    ) by {
        match position(entries, other) {
            Some(i) => {
                assert(i != at);
                assert(after[i] == entries[i]);
                lemma_position_of_entry(after, i);
            },
            None => {
                if position(after, other) is Some {
                    let j = position(after, other)->0;
                    assert(j != at);
                    assert(after[j] == entries[j]);
                }
            },
        }
    }
}

/// A string-keyed table whose entries keep their order of arrival.
pub struct Table<V> {
    keys: Vec<String>,
    values: Vec<V>,
    index: StringHashMap<usize>,
}

impl<V> View for Table<V> {
    type V = Seq<(Seq<char>, V)>;

    closed spec fn view(&self) -> Seq<(Seq<char>, V)> {
        Seq::new(self.keys.len() as nat, |i: int| (self.keys[i]@, self.values[i]))
    }
}

impl<V> Table<V> {
    /// The index and the two columns agree.
    pub closed spec fn wf(&self) -> bool {
        &&& self.keys.len() == self.values.len()
        &&& forall|i: int|
            0 <= i < self.keys.len() ==> self.index@.contains_key(#[trigger] self.keys[i]@)
                && self.index@[self.keys[i]@] == i
        &&& forall|k: Seq<char>| #[trigger]
            self.index@.contains_key(k) ==> self.index@[k] < self.keys.len()
                && self.keys[self.index@[k] as int]@ == k
    }

    /// A well-formed table holds no key twice.
    pub proof fn lemma_distinct(&self)
        requires
            self.wf(),
        ensures
            distinct_keys(self@),
    {
        assert forall|i: int, j: int| 0 <= i < j < self@.len() implies (#[trigger] self@[i]).0
            != (#[trigger] self@[j]).0 by {
            assert(self.index@[self.keys[i]@] == i);
            assert(self.index@[self.keys[j]@] == j);
        }
    }

    pub fn new() -> (r: Self)
        ensures
            r.wf(),
            r@ == Seq::<(Seq<char>, V)>::empty(),
    {
        Table { keys: Vec::new(), values: Vec::new(), index: StringHashMap::new() }
    }

    pub fn len(&self) -> (r: usize)
        ensures
            r == self@.len(),
    {
        self.keys.len()
    }

    /// The key of the entry at position `i`.
    pub fn key(&self, i: usize) -> (r: &String)
        requires
            i < self@.len(),
        ensures
            r@ == self@[i as int].0,
    {
        &self.keys[i]
    }

    /// The value of the entry at position `i`.
    pub fn value(&self, i: usize) -> (r: &V)
        requires
            self.wf(),
            i < self@.len(),
        ensures
            *r == self@[i as int].1,
    {
        &self.values[i]
    }

    /// The value stored under `key`, or `None` where the key is unknown.
    pub fn get(&self, key: &str) -> (r: Option<&V>)
        requires
            self.wf(),
        ensures
            match r {
                Some(v) => lookup(self@, key@) == Some(*v),
                None => lookup(self@, key@) is None,
            },
    {
        match self.index.get(key) {
            Some(at) => {
                let i: usize = *at;
                proof {
                    self.lemma_distinct();
                    assert(self@[i as int].0 == key@);
                    lemma_position_of_entry(self@, i as int);
                }
                Some(&self.values[i])
            },
            None => {
                proof {
                    if position(self@, key@) is Some {
                        let j = position(self@, key@)->0;
                        assert(self@[j].0 == key@);
                        assert(self.index@.contains_key(self.keys[j]@));
                    }
                }
                None
            },
        }
    }

    pub fn contains_key(&self, key: &str) -> (r: bool)
        requires
            self.wf(),
        ensures
            r == lookup(self@, key@) is Some,
    {
        self.get(key).is_some()
    }

    /// Stores `value` under `key`. A key that is present keeps its place and
    /// loses its old value; a new key goes to the end.
    pub fn insert(&mut self, key: String, value: V)
        requires
            old(self).wf(),
        ensures
            final(self).wf(),
            final(self)@ == inserted(old(self)@, key@, value),
            distinct_keys(final(self)@),
            lookup(final(self)@, key@) == Some(value),
            forall|other: Seq<char>|
                other != key@ ==> lookup(final(self)@, other) == lookup(old(self)@, other),
    {
        proof {
            self.lemma_distinct();
            lemma_inserted(self@, key@, value);
        }
        let found: Option<usize> = match self.index.get(key.as_str()) {
            Some(at) => Some(*at),
            None => None,
        };
        match found {
            Some(i) => {
                proof {
                    assert(self@[i as int].0 == key@);
                    lemma_position_of_entry(self@, i as int);
                }
                self.values.set(i, value);
                assert(self@ =~= inserted(old(self)@, key@, value));
            },
            None => {
                proof {
                    if position(self@, key@) is Some {
                        let j = position(self@, key@)->0;
                        assert(self@[j].0 == key@);
                        assert(self.index@.contains_key(self.keys[j]@));
                    }
                }
                let at: usize = self.keys.len();
                self.index.insert(key.clone(), at);
                self.keys.push(key);
                self.values.push(value);
                assert(self@ =~= inserted(old(self)@, key@, value));
            },
        }
    }
}

impl<V> Default for Table<V> {
    fn default() -> (r: Self)
        ensures
            r.wf(),
            r@ == Seq::<(Seq<char>, V)>::empty(),
    {
        Table::new()
    }
}

} // verus!
