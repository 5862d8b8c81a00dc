//! Small lookup tables keyed by hash.

use vstd::prelude::*;
use crate::hash;

verus! {

/// The value of the first entry under `key`, if there is one.
pub open spec fn find<T>(entries: Seq<(hash::Hash, T)>, key: hash::Hash) -> Option<T>
    decreases entries.len(),
{
    if entries.len() == 0 {
        None
    } else {
        match find(entries.drop_last(), key) {
            Some(value) => Some(value),
            None => if entries.last().0 == key {
                Some(entries.last().1)
            } else {
                None
            },
        }
    }
}

/// A table from hashes to values, in which a hash is entered once.
#[derive(Debug)]
pub struct Table<T> {
    entries: Vec<(hash::Hash, T)>,
}

impl<T: Copy> View for Table<T> {
    type V = Seq<(hash::Hash, T)>;

    closed spec fn view(&self) -> Seq<(hash::Hash, T)> {
        self.entries@
    }
}

impl<T: Copy> Table<T> {
    /// The value under `key`.
    pub open spec fn spec_get(&self, key: hash::Hash) -> Option<T> {
        find(self@, key)
    }

    /// A table without entries.
    pub fn new() -> (table: Table<T>)
        ensures
            table@ == Seq::<(hash::Hash, T)>::empty(),
    {
        Table { entries: Vec::new() }
    }

    /// The value under `key`.
    pub fn get(&self, key: hash::Hash) -> (found: Option<T>)
        ensures
            found == self.spec_get(key),
    {
        let mut i: usize = 0;
        while i < self.entries.len()
            invariant
                i <= self.entries@.len(),
                find(self.entries@.take(i as int), key) is None,
            decreases self.entries@.len() - i,
        {
            if self.entries[i].0 == key {
                proof {
                    lemma_find_prefix(self.entries@, key, i as int);
                }
                return Some(self.entries[i].1);
            }
            assert(self.entries@.take(i + 1).drop_last() == self.entries@.take(i as int));
            i = i + 1;
        }
        assert(self.entries@.take(i as int) == self.entries@);
        None
    }

    /// Enter `value` under `key`, unless the key is taken. Returns whether
    /// the entry was made.
    pub fn insert(&mut self, key: hash::Hash, value: T) -> (inserted: bool)
        ensures
            inserted == old(self).spec_get(key).is_none(),
            inserted ==> final(self)@ == old(self)@.push((key, value)),
            !inserted ==> final(self)@ == old(self)@,
            final(self).spec_get(key) == if inserted {
                Some(value)
            } else {
                old(self).spec_get(key)
            },
    {
        if self.get(key).is_some() {
            return false;
        }
        self.entries.push((key, value));
        assert(self.entries@.drop_last() == old(self).entries@);
        true
    }
}

/// When no entry before position `i` is under the key and the one at `i` is,
/// that one is found.
pub proof fn lemma_find_prefix<T>(entries: Seq<(hash::Hash, T)>, key: hash::Hash, i: int)
    requires
        0 <= i < entries.len(),
        find(entries.take(i), key) is None,
        entries[i].0 == key,
    ensures
        find(entries, key) == Some(entries[i].1),
    decreases entries.len(),
{
    if i == entries.len() - 1 {
        assert(entries.drop_last() == entries.take(i));
    } else {
        assert(entries.drop_last().take(i) == entries.take(i));
        lemma_find_prefix(entries.drop_last(), key, i);
    }
}

} // verus!
