//! The ephemeral cache: a short-lived copy of stored values, layered on top
//! of the durable store and expiring on its own.
//!
//! A cached value is never authoritative. Dropping any entry at any time
//! costs a read of the durable store and nothing else.

use vstd::prelude::*;
use crate::ids::{clone_ids, id_seq, Id};
use crate::keys::{KeyView, DataKey};
use crate::slots::SlotTable;

verus! {

/// A value that can be cached.
#[derive(Debug)]
pub enum CacheValue {
    /// Whether an access record exists.
    Flag(bool),
    /// A copy of an index entry.
    Ids(Vec<String>),
}

/// A cached value as contracts see it.
pub enum CachedView {
    Flag(bool),
    Ids(Seq<Id>),
}

impl View for CacheValue {
    type V = CachedView;

    open spec fn view(&self) -> CachedView {
        match self {
            CacheValue::Flag(flag) => CachedView::Flag(*flag),
            CacheValue::Ids(list) => CachedView::Ids(id_seq(list)),
        }
    }
}

impl CacheValue {
    /// An independent copy of this value.
    pub fn duplicate(&self) -> (copy: CacheValue)
        ensures
            copy@ == self@,
    {
        match self {
            CacheValue::Flag(flag) => CacheValue::Flag(*flag),
            CacheValue::Ids(list) => CacheValue::Ids(clone_ids(list)),
        }
    }
}

/// One unexpired cache entry as contracts see it.
pub struct CacheEntry {
    pub value: CachedView,
    /// Ledgers until the entry expires; never zero.
    pub ttl: nat,
}

/// What a cache holds `ledgers` ledgers later: the entries that have more
/// time than that left, with that much less of it.
pub open spec fn live_later(live: Map<KeyView, CacheEntry>, ledgers: nat) -> Map<
    KeyView,
    CacheEntry,
> {
    Map::new(
        |key: KeyView| live.contains_key(key) && live[key].ttl > ledgers,
        |key: KeyView| CacheEntry { value: live[key].value, ttl: (live[key].ttl - ledgers) as nat },
    )
}

/// A time-boxed key/value cache.
pub trait EphemeralCache {
    /// The implementation's own invariant.
    open spec fn inv(&self) -> bool {
        true
    }

    /// The entries whose expiry has not elapsed. An implementation that
    /// keeps its entries elsewhere leaves this unspecified.
    open spec fn live(&self) -> Map<KeyView, CacheEntry> {
        arbitrary()
    }

    /// The cached value under `key`, unless there is none or it has expired.
    fn read(&self, key: &DataKey) -> (hit: Option<CacheValue>)
        requires
            self.inv(),
        ensures
            match hit {
                Some(value) => self.live().contains_key(key@) && value@ == self.live()[key@].value,
                None => !self.live().contains_key(key@),
            },
    ;

    /// Stores `value` under `key` and resets its expiry to `ttl` ledgers from
    /// now. With a `ttl` of zero nothing stays cached under `key`.
    fn write(&mut self, key: &DataKey, value: CacheValue, ttl: u32)
        requires
            old(self).inv(),
        ensures
            final(self).inv(),
            final(self).live() == if ttl > 0 {
                old(self).live().insert(key@, CacheEntry { value: value@, ttl: ttl as nat })
            } else {
                old(self).live().remove(key@)
            },
    ;

    /// Removes the entry under `key`, whether or not it has expired.
    fn invalidate(&mut self, key: &DataKey)
        requires
            old(self).inv(),
        ensures
            final(self).inv(),
            final(self).live() == old(self).live().remove(key@),
    ;
}

/// A cache kept in memory.
pub struct MemoryCache {
    table: SlotTable<CacheValue>,
}

/// The live entries that a table of cached values stands for.
pub open spec fn live_of(contents: Map<KeyView, (CacheValue, u32)>) -> Map<KeyView, CacheEntry> {
    Map::new(
        |key: KeyView| contents.contains_key(key),
        |key: KeyView| CacheEntry { value: contents[key].0@, ttl: contents[key].1 as nat },
    )
}

impl MemoryCache {
    /// An empty cache.
    pub fn new() -> (cache: Self)
        ensures
            cache.inv(),
            cache.live() == Map::<KeyView, CacheEntry>::empty(),
    {
        let cache = MemoryCache { table: SlotTable::new() };
        cache
    }

    /// Lets `ledgers` ledgers pass; entries whose time has run out are evicted.
    pub fn advance(&mut self, ledgers: u32)
        requires
            old(self).inv(),
        ensures
            final(self).inv(),
            final(self).live() == live_later(old(self).live(), ledgers as nat),
    {
        self.table.advance(ledgers, false);
    }

    /// Evicts every entry.
    pub fn clear(&mut self)
        requires
            old(self).inv(),
        ensures
            final(self).inv(),
            final(self).live() == Map::<KeyView, CacheEntry>::empty(),
    {
        self.table = SlotTable::new();
    }
}

impl EphemeralCache for MemoryCache {
    closed spec fn inv(&self) -> bool {
        &&& self.table.inv()
        &&& forall|key: KeyView| #[trigger]
            self.table.contents().contains_key(key) ==> self.table.contents()[key].1 > 0
    }

    closed spec fn live(&self) -> Map<KeyView, CacheEntry> {
        live_of(self.table.contents())
    }

    fn read(&self, key: &DataKey) -> (hit: Option<CacheValue>) {
        match self.table.lookup(key) {
            Some((value, _)) => Some(value.duplicate()),
            None => None,
        }
    }

    fn write(&mut self, key: &DataKey, value: CacheValue, ttl: u32) {
        if ttl > 0 {
            self.table.put(key, value, ttl, false);
        } else {
            self.table.delete(key);
        }
    }

    fn invalidate(&mut self, key: &DataKey) {
        self.table.delete(key);
    }
}

} // verus!
