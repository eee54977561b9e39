//! A small keyed table with a map model.
//!
//! Both the glyph-metric stores and the accidental memory of the notation
//! context need a lookup table with insert, get and remove, specified
//! against a [`Map`] of its contents. The table is a plain association list:
//! the sizes involved (a few dozen glyphs, the pitches of one measure) make
//! anything cleverer pointless.

use vstd::prelude::*;

verus! {

/// The map held by an entry list: later entries win.
pub open spec fn entries_map<V>(entries: Seq<(u64, V)>) -> Map<u64, V>
    decreases entries.len(),
{
    if entries.len() == 0 {
        Map::empty()
    } else {
        entries_map(entries.drop_last()).insert(entries.last().0, entries.last().1)
    }
}

/// A table of values keyed by small integers.
#[derive(Clone, Debug)]
pub struct Table<V> {
    entries: Vec<(u64, V)>,
}

impl<V> View for Table<V> {
    type V = Map<u64, V>;

    closed spec fn view(&self) -> Map<u64, V> {
        entries_map(self.entries@)
    }
}

impl<V: Copy> Table<V> {
    /// Returns an empty table.
    pub fn new() -> (r: Table<V>)
        ensures
            r@ == Map::<u64, V>::empty(),
    {
        Table { entries: Vec::new() }
    }

    /// Records `value` under `key`, replacing what was there.
    pub fn set(&mut self, key: u64, value: V)
        ensures
            final(self)@ == old(self)@.insert(key, value),
    {
        self.entries.push((key, value));
        proof {
            assert(self.entries@.drop_last() =~= old(self).entries@);
        }
    }

    /// The value under `key`, if there is one.
    pub fn get(&self, key: u64) -> (r: Option<V>)
        ensures
            r == if self@.contains_key(key) {
                Some(self@[key])
            } else {
                Option::<V>::None
            },
    {
        let mut found: Option<V> = None;
        let mut i: usize = 0;

        while i < self.entries.len()
            invariant
                i <= self.entries@.len(),
                found == ({
                    let seen = entries_map(self.entries@.take(i as int));
                    if seen.contains_key(key) {
                        Some(seen[key])
                    } else {
                        Option::<V>::None
                    }
                }),
            decreases self.entries@.len() - i,
        {
            proof {
                assert(self.entries@.take(i as int + 1).drop_last() =~= self.entries@.take(
                    i as int,
                ));
                assert(self.entries@.take(i as int + 1).last() == self.entries@[i as int]);
            }
            let (entry_key, entry_value) = self.entries[i];
            if entry_key == key {
                found = Some(entry_value);
            }
            i += 1;
        }

        proof {
            assert(self.entries@.take(self.entries@.len() as int) =~= self.entries@);
        }
        found
    }

    /// Whether there is a value under `key`.
    pub fn contains_key(&self, key: u64) -> (r: bool)
        ensures
            r == self@.contains_key(key),
    {
        self.get(key).is_some()
    }

    /// Drops whatever is recorded under `key`.
    pub fn remove(&mut self, key: u64)
        ensures
            final(self)@ == old(self)@.remove(key),
    {
        let mut kept: Vec<(u64, V)> = Vec::new();
        let mut i: usize = 0;

        while i < self.entries.len()
            invariant
                i <= self.entries@.len(),
                self.entries@ == old(self).entries@,
                entries_map(kept@) =~= entries_map(self.entries@.take(i as int)).remove(key),
            decreases self.entries@.len() - i,
        {
            proof {
                assert(self.entries@.take(i as int + 1).drop_last() =~= self.entries@.take(
                    i as int,
                ));
                assert(self.entries@.take(i as int + 1).last() == self.entries@[i as int]);
            }
            let (entry_key, entry_value) = self.entries[i];
            if entry_key != key {
                let ghost kept_before = kept@;
                kept.push((entry_key, entry_value));
                proof {
                    assert(kept@.drop_last() =~= kept_before);
                }
            }
            proof {
                assert(entries_map(kept@) =~= entries_map(
                    self.entries@.take(i as int + 1),
                ).remove(key));
            }
            i += 1;
        }

        proof {
            assert(self.entries@.take(self.entries@.len() as int) =~= self.entries@);
        }
        self.entries = kept;
    }

    /// Empties the table.
    pub fn clear(&mut self)
        ensures
            final(self)@ == Map::<u64, V>::empty(),
    {
        self.entries.clear();
    }
}

impl<V> Default for Table<V> {
    /// Returns an empty table.
    fn default() -> (r: Table<V>)
        ensures
            r@ == Map::<u64, V>::empty(),
    {
        Table { entries: Vec::new() }
    }
}

} // verus!
