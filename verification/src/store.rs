//! The durable index store: key/value persistence with explicit expiry
//! bumping. It is the only source of truth; everything else is derived from
//! it or layered on top of it.
//!
//! The store is injected: components reach it through [`DurableStore`], so a
//! ledger-backed store and the in-memory [`MemoryStore`] are interchangeable.

use vstd::prelude::*;
use crate::ids::{clone_ids, id_seq, Id};
use crate::keys::{KeyView, DataKey};
use crate::slots::SlotTable;

verus! {

/// One stored entry as contracts see it.
pub struct Entry {
    /// The identifiers stored under the key.
    pub value: Seq<Id>,
    /// Ledgers after the current one through which the entry stays readable.
    pub ttl: nat,
}

/// The whole store as contracts see it.
pub struct StoreState {
    pub entries: Map<KeyView, Entry>,
    /// The lifetime that a newly created entry starts with.
    pub initial_ttl: nat,
}

/// The lifetime of an entry after an expiry bump: an entry with fewer than
/// `threshold` ledgers left is extended to `extend_to`, any other is left alone.
pub open spec fn refreshed(ttl: nat, threshold: nat, extend_to: nat) -> nat {
    if ttl < threshold {
        extend_to
    } else {
        ttl
    }
}

impl StoreState {
    /// Whether an entry exists under `key`.
    pub open spec fn holds(self, key: KeyView) -> bool {
        self.entries.contains_key(key)
    }

    /// The identifiers under `key`; none where no entry exists.
    pub open spec fn list(self, key: KeyView) -> Seq<Id> {
        if self.holds(key) {
            self.entries[key].value
        } else {
            Seq::empty()
        }
    }

    /// The store after `value` is written under `key`. An existing entry
    /// keeps its lifetime, a new one starts with the initial lifetime.
    pub open spec fn set(self, key: KeyView, value: Seq<Id>) -> StoreState {
        StoreState {
            entries: self.entries.insert(
                key,
                Entry {
                    value,
                    ttl: if self.holds(key) {
                        self.entries[key].ttl
                    } else {
                        self.initial_ttl
                    },
                },
            ),
            ..self
        }
    }

    /// The store after the entry under `key` is deleted.
    pub open spec fn remove(self, key: KeyView) -> StoreState {
        StoreState { entries: self.entries.remove(key), ..self }
    }

    /// The store after the expiry of the entry under `key` is bumped.
    pub open spec fn extend(self, key: KeyView, threshold: nat, extend_to: nat) -> StoreState {
        if self.holds(key) {
            StoreState {
                entries: self.entries.insert(
                    key,
                    Entry {
                        value: self.entries[key].value,
                        ttl: refreshed(self.entries[key].ttl, threshold, extend_to),
                    },
                ),
                ..self
            }
        } else {
            self
        }
    }

    /// The store `ledgers` ledgers later: entries whose lifetime is shorter
    /// than that are gone, the others have that much less left.
    pub open spec fn later(self, ledgers: nat) -> StoreState {
        StoreState {
            entries: Map::new(
                |key: KeyView| self.holds(key) && self.entries[key].ttl >= ledgers,
                |key: KeyView|
                    Entry {
                        value: self.entries[key].value,
                        ttl: (self.entries[key].ttl - ledgers) as nat,
                    },
            ),
            ..self
        }
    }
}

/// A durable key/value store of identifier lists.
pub trait DurableStore {
    /// The implementation's own invariant.
    open spec fn inv(&self) -> bool {
        true
    }

    /// What the store holds. An implementation that keeps its entries
    /// elsewhere leaves this unspecified.
    open spec fn state(&self) -> StoreState {
        arbitrary()
    }

    /// Whether an entry exists under `key`.
    fn has(&self, key: &DataKey) -> (found: bool)
        requires
            self.inv(),
        ensures
            found == self.state().holds(key@),
    ;

    /// A copy of the identifiers under `key`, if an entry exists. A store
    /// holds finitely many entries.
    fn get(&self, key: &DataKey) -> (value: Option<Vec<String>>)
        requires
            self.inv(),
        ensures
            match value {
                Some(list) => self.state().holds(key@) && id_seq(&list) == self.state().entries[key@].value,
                None => !self.state().holds(key@),
            },
            self.state().entries.dom().finite(),
    ;

    /// Writes `value` under `key`, creating or replacing the entry.
    fn set(&mut self, key: &DataKey, value: &Vec<String>)
        requires
            old(self).inv(),
        ensures
            final(self).inv(),
            final(self).state() == old(self).state().set(key@, id_seq(value)),
    ;

    /// Deletes the entry under `key`, if any.
    fn remove(&mut self, key: &DataKey)
        requires
            old(self).inv(),
        ensures
            final(self).inv(),
            final(self).state() == old(self).state().remove(key@),
    ;

    /// Bumps the expiry of the entry under `key`: with fewer than
    /// `threshold` ledgers left it is extended to `extend_to` ledgers.
    fn extend_ttl(&mut self, key: &DataKey, threshold: u32, extend_to: u32)
        requires
            old(self).inv(),
            old(self).state().holds(key@),
            threshold <= extend_to,
        ensures
            final(self).inv(),
            final(self).state() == old(self).state().extend(key@, threshold as nat, extend_to as nat),
    ;
}

/// A durable store kept in memory.
pub struct MemoryStore {
    table: SlotTable<Vec<String>>,
    initial_ttl: u32,
}

/// The entries that a table of identifier lists stands for.
pub open spec fn entries_of(contents: Map<KeyView, (Vec<String>, u32)>) -> Map<KeyView, Entry> {
    Map::new(
        |key: KeyView| contents.contains_key(key),
        |key: KeyView| Entry { value: id_seq(&contents[key].0), ttl: contents[key].1 as nat },
    )
}

impl MemoryStore {
    /// An empty store whose new entries start with `initial_ttl` ledgers.
    pub fn new(initial_ttl: u32) -> (store: Self)
        ensures
            store.inv(),
            store.state() == (StoreState { entries: Map::empty(), initial_ttl: initial_ttl as nat }),
    {
        let store = MemoryStore { table: SlotTable::new(), initial_ttl };
        assert(store.state().entries =~= Map::<KeyView, Entry>::empty());
        store
    }

    /// Lets `ledgers` ledgers pass.
    pub fn advance(&mut self, ledgers: u32)
        requires
            old(self).inv(),
        ensures
            final(self).inv(),
            final(self).state() == old(self).state().later(ledgers as nat),
    {
        self.table.advance(ledgers, true);
        assert(self.state().entries =~= old(self).state().later(ledgers as nat).entries);
    }
}

impl DurableStore for MemoryStore {
    closed spec fn inv(&self) -> bool {
        self.table.inv()
    }

    closed spec fn state(&self) -> StoreState {
        StoreState {
            entries: entries_of(self.table.contents()),
            initial_ttl: self.initial_ttl as nat,
        }
    }

    fn has(&self, key: &DataKey) -> (found: bool) {
        self.table.lookup(key).is_some()
    }

    fn get(&self, key: &DataKey) -> (value: Option<Vec<String>>) {
        proof {
            self.table.lemma_finite();
            assert(self.state().entries.dom() =~= self.table.contents().dom());
        }
        match self.table.lookup(key) {
            Some((list, _)) => Some(clone_ids(list)),
            None => None,
        }
    }

    fn set(&mut self, key: &DataKey, value: &Vec<String>) {
        let copy = clone_ids(value);
        self.table.put(key, copy, self.initial_ttl, true);
        assert(self.state().entries =~= old(self).state().set(key@, id_seq(value)).entries);
    }

    fn remove(&mut self, key: &DataKey) {
        self.table.delete(key);
        assert(self.state().entries =~= old(self).state().remove(key@).entries);
    }

    fn extend_ttl(&mut self, key: &DataKey, threshold: u32, extend_to: u32) {
        let left: Option<u32> = match self.table.lookup(key) {
            Some((_, ttl)) => Some(ttl),
            None => None,
        };
        match left {
            Some(ttl) => {
                if ttl < threshold {
                    self.table.set_ttl(key, extend_to);
                }
            },
            None => {},
        }
        assert(self.state().entries =~= old(self).state().extend(
            key@,
            threshold as nat,
            extend_to as nat,
        ).entries);
    }
}

} // verus!
