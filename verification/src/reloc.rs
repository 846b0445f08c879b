//! The sparse table that records where an allocation holds pointers.

use vstd::prelude::*;
use crate::memory::Pointer;

verus! {

/// The keys from `from` up to, not including, `to`.
pub open spec fn key_range(from: usize, to: usize) -> Set<usize> {
    Set::new(|k: usize| from <= k < to)
}

/// What looking up `key` in `table` gives.
pub open spec fn lookup(table: Map<usize, Pointer>, key: usize) -> Option<Pointer> {
    if table.contains_key(key) {
        Some(table[key])
    } else {
        None
    }
}

/// The table that a list of entries stands for: a later entry replaces an
/// earlier one with the same key.
pub open spec fn table_of(entries: Seq<(usize, Pointer)>) -> Map<usize, Pointer>
    decreases entries.len(),
{
    if entries.len() == 0 {
        Map::empty()
    } else {
        table_of(entries.drop_last()).insert(entries.last().0, entries.last().1)
    }
}

proof fn lemma_table_of_push(entries: Seq<(usize, Pointer)>, key: usize, target: Pointer)
    ensures
        table_of(entries.push((key, target))) == table_of(entries).insert(key, target),
{
    assert(entries.push((key, target)).drop_last() =~= entries);
}

/// A map from byte offsets to the pointers stored at them, kept as a short
/// list of entries.
pub struct RelocTable {
    entries: Vec<(usize, Pointer)>,
}

impl View for RelocTable {
    type V = Map<usize, Pointer>;

    closed spec fn view(&self) -> Map<usize, Pointer> {
        table_of(self.entries@)
    }
}

impl RelocTable {
    /// The empty table.
    pub fn new() -> (table: Self)
        ensures
            table@ == Map::<usize, Pointer>::empty(),
    {
        RelocTable { entries: Vec::new() }
    }

    /// The pointer recorded at `key`, if there is one.
    pub fn get(&self, key: usize) -> (found: Option<Pointer>)
        ensures
            found == lookup(self@, key),
    {
        let mut found: Option<Pointer> = None;
        let mut i: usize = 0;
        while i < self.entries.len()
            invariant
                i <= self.entries.len(),
                found == lookup(table_of(self.entries@.take(i as int)), key),
            decreases self.entries.len() - i,
        {
            let entry = self.entries[i];
            proof {
                assert(self.entries@.take(i + 1) =~= self.entries@.take(i as int).push(entry));
                lemma_table_of_push(self.entries@.take(i as int), entry.0, entry.1);
            }
            if entry.0 == key {
                found = Some(entry.1);
            }
            i = i + 1;
        }
        assert(self.entries@.take(i as int) =~= self.entries@);
        found
    }

    /// Records `target` at `key`, in place of what was recorded there.
    pub fn insert(&mut self, key: usize, target: Pointer)
        ensures
            final(self)@ == old(self)@.insert(key, target),
    {
        proof {
            lemma_table_of_push(self.entries@, key, target);
        }
        self.entries.push((key, target));
    }

    /// Forgets every entry whose key is at least `from` and below `to`.
    pub fn remove_range(&mut self, from: usize, to: usize)
        ensures
            final(self)@ == old(self)@.remove_keys(key_range(from, to)),
    {
        let mut kept: Vec<(usize, Pointer)> = Vec::new();
        let mut i: usize = 0;
        while i < self.entries.len()
            invariant
                i <= self.entries.len(),
                table_of(kept@) == table_of(self.entries@.take(i as int)).remove_keys(
                    key_range(from, to),
                ),
            decreases self.entries.len() - i,
        {
            let entry = self.entries[i];
            proof {
                assert(self.entries@.take(i + 1) =~= self.entries@.take(i as int).push(entry));
                lemma_table_of_push(self.entries@.take(i as int), entry.0, entry.1);
                lemma_table_of_push(kept@, entry.0, entry.1);
            }
            if !(from <= entry.0 && entry.0 < to) {
                kept.push(entry);
            }
            i = i + 1;
        }
        assert(self.entries@.take(i as int) =~= self.entries@);
        self.entries = kept;
    }
}

} // verus!
