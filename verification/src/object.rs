//! Objects: values under string keys, in the order the keys were first set.

use vstd::prelude::*;
use vstd::string::*;
use crate::value::Value;

verus! {

/// The position of the first entry under `key`, if there is one.
pub open spec fn position<V>(entries: Seq<(Seq<char>, V)>, key: Seq<char>) -> Option<int>
    decreases entries.len(),
{
    if entries.len() == 0 {
        None
    } else {
        match position(entries.drop_last(), key) {
            Some(i) => Some(i),
            None => if entries.last().0 == key {
                Some(entries.len() - 1)
            } else {
                None
            },
        }
    }
}

/// The value under `key`, if there is one.
pub open spec fn lookup<V>(entries: Seq<(Seq<char>, V)>, key: Seq<char>) -> Option<V> {
    match position(entries, key) {
        Some(i) => Some(entries[i].1),
        None => None,
    }
}

/// The entries after `key` was set to `value`: an entry under that key is
/// overwritten where it stands, a new key goes to the end.
pub open spec fn with_entry<V>(entries: Seq<(Seq<char>, V)>, key: Seq<char>, value: V) -> Seq<
    (Seq<char>, V),
> {
    match position(entries, key) {
        Some(i) => entries.update(i, (key, value)),
        None => entries.push((key, value)),
    }
}

/// No key occurs twice.
pub open spec fn distinct_keys<V>(entries: Seq<(Seq<char>, V)>) -> bool {
    forall|i: int, j: int|
        0 <= i < entries.len() && 0 <= j < entries.len() && i != j ==> (#[trigger] entries[i]).0
            != (#[trigger] entries[j]).0
}

/// What [`position`] finds is an entry under the key, and the first one.
pub proof fn lemma_position<V>(entries: Seq<(Seq<char>, V)>, key: Seq<char>)
    ensures
        match position(entries, key) {
            Some(i) => {
                &&& 0 <= i < entries.len()
                &&& entries[i].0 == key
                &&& forall|j: int| 0 <= j < i ==> (#[trigger] entries[j]).0 != key
            },
            None => forall|j: int| 0 <= j < entries.len() ==> (#[trigger] entries[j]).0 != key,
        },
    decreases entries.len(),
{
    if entries.len() > 0 {
        let front = entries.drop_last();
        lemma_position(front, key);
        assert forall|j: int| 0 <= j < front.len() implies (#[trigger] entries[j]) == front[j] by {}
        match position(front, key) {
            Some(i) => {},
            None => {
                assert forall|j: int| 0 <= j < front.len() implies (#[trigger] entries[j]).0
                    != key by {
                    assert(front[j].0 != key);
                }
            },
        }
    }
}

/// An entry under the key, with none before it, is what [`position`] finds.
pub proof fn lemma_position_is<V>(entries: Seq<(Seq<char>, V)>, key: Seq<char>, i: int)
    requires
        0 <= i < entries.len(),
        entries[i].0 == key,
        forall|j: int| 0 <= j < i ==> (#[trigger] entries[j]).0 != key,
    ensures
        position(entries, key) == Some(i),
{
    lemma_position(entries, key);
}

/// Setting a key keeps the keys distinct.
pub proof fn lemma_with_entry_distinct<V>(entries: Seq<(Seq<char>, V)>, key: Seq<char>, value: V)
    requires
        distinct_keys(entries),
    ensures
        distinct_keys(with_entry(entries, key, value)),
{
    lemma_position(entries, key);
}

/// One entry of an object.
#[derive(Debug)]
struct Entry {
    key: String,
    value: Value,
}

/// An ordered mapping from strings to values. Keys keep the order in which
/// they were first inserted.
#[derive(Debug)]
pub struct Object {
    entries: Vec<Entry>,
}

impl View for Object {
    type V = Seq<(Seq<char>, Value)>;

    closed spec fn view(&self) -> Seq<(Seq<char>, Value)> {
        Seq::new(self.entries@.len(), |i: int| (self.entries@[i].key@, self.entries@[i].value))
    }
}

impl Object {
    /// An object without entries.
    pub fn new() -> (object: Object)
        ensures
            object@ == Seq::<(Seq<char>, Value)>::empty(),
    {
        Object { entries: Vec::new() }
    }

    /// An object without entries, with room for `capacity` of them.
    pub fn with_capacity(capacity: usize) -> (object: Object)
        ensures
            object@ == Seq::<(Seq<char>, Value)>::empty(),
    {
        Object { entries: Vec::with_capacity(capacity) }
    }

    /// The number of entries.
    pub fn len(&self) -> (len: usize)
        ensures
            len == self@.len(),
    {
        self.entries.len()
    }

    /// The position of the entry under `key`.
    fn find(&self, key: &str) -> (found: Option<usize>)
        ensures
            match found {
                Some(i) => position(self@, key@) == Some(i as int) && i < self@.len(),
                None => position(self@, key@) is None,
            },
    {
        let wanted = key.to_owned();
        let mut i: usize = 0;
        while i < self.entries.len()
            invariant
                i <= self.entries@.len(),
                wanted@ == key@,
                forall|j: int| 0 <= j < i ==> (#[trigger] self@[j]).0 != key@,
            decreases self.entries@.len() - i,
        {
            if self.entries[i].key == wanted {
                proof {
                    lemma_position_is(self@, key@, i as int);
                }
                return Some(i);
            }
            i = i + 1;
        }
        proof {
            lemma_position(self@, key@);
        }
        None
    }

    /// The value under `key`.
    pub fn get(&self, key: &str) -> (found: Option<Value>)
        ensures
            found == lookup(self@, key@),
    {
        match self.find(key) {
            Some(i) => Some(self.entries[i].value),
            None => None,
        }
    }

    /// Whether there is an entry under `key`.
    pub fn contains_key(&self, key: &str) -> (found: bool)
        ensures
            found == position(self@, key@).is_some(),
    {
        self.find(key).is_some()
    }

    /// The key of the entry at `index`, in insertion order.
    pub fn key_at(&self, index: usize) -> (key: Option<&String>)
        ensures
            match key {
                Some(key) => index < self@.len() && key@ == self@[index as int].0,
                None => index >= self@.len(),
            },
    {
        if index < self.entries.len() {
            Some(&self.entries[index].key)
        } else {
            None
        }
    }

    /// The value of the entry at `index`, in insertion order.
    pub fn value_at(&self, index: usize) -> (value: Option<Value>)
        ensures
            match value {
                Some(value) => index < self@.len() && value == self@[index as int].1,
                None => index >= self@.len(),
            },
    {
        if index < self.entries.len() {
            Some(self.entries[index].value)
        } else {
            None
        }
    }

    /// Set `key` to `value`. Returns the value that was there before.
    pub fn insert(&mut self, key: String, value: Value) -> (previous: Option<Value>)
        ensures
            previous == lookup(old(self)@, key@),
            final(self)@ == with_entry(old(self)@, key@, value),
            distinct_keys(old(self)@) ==> distinct_keys(final(self)@),
    {
        proof {
            if distinct_keys(self@) {
                lemma_with_entry_distinct(self@, key@, value);
            }
        }
        match self.find(key.as_str()) {
            Some(i) => {
                let previous = self.entries[i].value;
                self.entries[i].value = value;
                assert(self@ =~= old(self)@.update(i as int, (key@, value))) by {
                    lemma_position(old(self)@, key@);
                }
                Some(previous)
            },
            None => {
                self.entries.push(Entry { key, value });
                assert(self@ =~= old(self)@.push((key@, value)));
                None
            },
        }
    }

    /// Overwrite the value under `key`, if there is an entry under it.
    /// Returns whether there was one.
    pub fn replace(&mut self, key: &str, value: Value) -> (found: bool)
        ensures
            found == position(old(self)@, key@).is_some(),
            found ==> final(self)@ == with_entry(old(self)@, key@, value),
            !found ==> final(self)@ == old(self)@,
            distinct_keys(old(self)@) ==> distinct_keys(final(self)@),
    {
        proof {
            if distinct_keys(self@) {
                lemma_with_entry_distinct(self@, key@, value);
            }
        }
        match self.find(key) {
            Some(i) => {
                self.entries[i].value = value;
                assert(self@ =~= old(self)@.update(i as int, (key@, value))) by {
                    lemma_position(old(self)@, key@);
                }
                true
            },
            None => false,
        }
    }
}

} // verus!
