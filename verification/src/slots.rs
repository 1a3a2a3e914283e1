//! A keyed table of expiring slots, the in-memory representation shared by
//! the durable store and the cache.
//!
//! Every slot carries the number of ledgers for which it remains readable.
//! No key occupies two slots.

use vstd::prelude::*;
use crate::keys::{KeyView, DataKey};

verus! {

/// One occupied slot.
pub struct Slot<V> {
    pub key: DataKey,
    pub value: V,
    pub ttl: u32,
}

/// Slots in no particular order.
pub struct SlotTable<V> {
    slots: Vec<Slot<V>>,
}

/// Some slot of `slots` is keyed by `key`.
pub open spec fn occupied<V>(slots: Seq<Slot<V>>, key: KeyView) -> bool {
    exists|i: int| 0 <= i < slots.len() && (#[trigger] slots[i]).key@ == key
}

/// The position of a slot keyed by `key`.
pub open spec fn position<V>(slots: Seq<Slot<V>>, key: KeyView) -> int {
    choose|i: int| 0 <= i < slots.len() && (#[trigger] slots[i]).key@ == key
}

/// No key occupies two slots.
pub open spec fn keys_unique<V>(slots: Seq<Slot<V>>) -> bool {
    forall|i: int, j: int|
        0 <= i < slots.len() && 0 <= j < slots.len() && i != j ==> (#[trigger] slots[i]).key@ != (
        #[trigger] slots[j]).key@
}

/// Value and remaining lifetime under each occupied key.
pub open spec fn contents_of<V>(slots: Seq<Slot<V>>) -> Map<KeyView, (V, u32)> {
    Map::new(
        |key: KeyView| occupied(slots, key),
        |key: KeyView| (slots[position(slots, key)].value, slots[position(slots, key)].ttl),
    )
}

/// Whether an entry with `ttl` ledgers left is still readable `ledgers` later.
/// A durable entry is readable through its last ledger; a cached one expires
/// when its time has run out.
pub open spec fn survives(ttl: u32, ledgers: u32, through_last: bool) -> bool {
    if through_last {
        ttl >= ledgers
    } else {
        ttl > ledgers
    }
}

/// `contents` as it stands `ledgers` later.
pub open spec fn aged<V>(contents: Map<KeyView, (V, u32)>, ledgers: u32, through_last: bool) -> Map<
    KeyView,
    (V, u32),
> {
    Map::new(
        |key: KeyView| contents.contains_key(key) && survives(contents[key].1, ledgers, through_last),
        |key: KeyView| (contents[key].0, (contents[key].1 - ledgers) as u32),
    )
}

/// The keys of a table are finitely many.
pub proof fn lemma_contents_finite<V>(slots: Seq<Slot<V>>)
    ensures
        contents_of(slots).dom().finite(),
    decreases slots.len(),
{
    if slots.len() == 0 {
        assert(contents_of(slots).dom() =~= Set::<KeyView>::empty());
    } else {
        let front = slots.drop_last();
        lemma_contents_finite(front);
        let key = slots.last().key@;
        assert(contents_of(slots).dom() =~= contents_of(front).dom().insert(key)) by {
            assert forall|k: KeyView| contents_of(slots).dom().contains(k) implies contents_of(
                front,
            ).dom().insert(key).contains(k) by {
                let i = position(slots, k);
                if i < front.len() {
                    assert(front[i].key@ == k);
                }
            }
        }
    }
}

impl<V> SlotTable<V> {
    /// The table's internal invariant.
    pub closed spec fn inv(&self) -> bool {
        keys_unique(self.slots@)
    }

    /// Value and remaining lifetime under each occupied key.
    pub closed spec fn contents(&self) -> Map<KeyView, (V, u32)> {
        contents_of(self.slots@)
    }

    /// The keys of a table are finitely many.
    pub proof fn lemma_finite(&self)
        ensures
            self.contents().dom().finite(),
    {
        lemma_contents_finite(self.slots@);
    }

    /// An empty table.
    pub fn new() -> (table: Self)
        ensures
            table.inv(),
            table.contents() == Map::<KeyView, (V, u32)>::empty(),
    {
        let table = SlotTable { slots: Vec::new() };
        table
    }

    fn find(&self, key: &DataKey) -> (at: Option<usize>)
        requires
            self.inv(),
        ensures
            match at {
                Some(i) => i < self.slots@.len() && self.slots@[i as int].key@ == key@
                    && self.contents().contains_key(key@) && self.contents()[key@] == (
                    self.slots@[i as int].value,
                    self.slots@[i as int].ttl,
                ),
                None => !self.contents().contains_key(key@) && !occupied(self.slots@, key@),
            },
    {
        let mut i: usize = 0;
        while i < self.slots.len()
            invariant
                self.inv(),
                i <= self.slots@.len(),
                forall|j: int| 0 <= j < i ==> (#[trigger] self.slots@[j]).key@ != key@,
            decreases self.slots@.len() - i,
        {
            if self.slots[i].key.same_as(key) {
                return Some(i);
            }
            i += 1;
        }
        None
    }

    /// The value under `key` and the ledgers it has left, if the key is occupied.
    pub fn lookup(&self, key: &DataKey) -> (slot: Option<(&V, u32)>)
        requires
            self.inv(),
        ensures
            match slot {
                Some((value, ttl)) => self.contents().contains_key(key@) && self.contents()[key@]
                    == (*value, ttl),
                None => !self.contents().contains_key(key@),
            },
    {
        match self.find(key) {
            Some(i) => Some((&self.slots[i].value, self.slots[i].ttl)),
            None => None,
        }
    }

    /// Stores `value` under `key`. A key that was vacant gets `ttl` ledgers; an
    /// occupied one keeps what it has left when `keep_ttl` is set, and gets
    /// `ttl` otherwise.
    pub fn put(&mut self, key: &DataKey, value: V, ttl: u32, keep_ttl: bool)
        requires
            old(self).inv(),
        ensures
            final(self).inv(),
            final(self).contents() == old(self).contents().insert(
                key@,
                (
                    value,
                    if keep_ttl && old(self).contents().contains_key(key@) {
                        old(self).contents()[key@].1
                    } else {
                        ttl
                    },
                ),
            ),
    {
        let ghost before = self.slots@;
        match self.find(key) {
            Some(i) => {
                let left: u32 = if keep_ttl {
                    self.slots[i].ttl
                } else {
                    ttl
                };
                self.slots[i] = Slot { key: key.duplicate(), value, ttl: left };
                proof {
                    let after = self.slots@;
                    assert(contents_of(after) =~= contents_of(before).insert(key@, (value, left)))
                        by {
                        assert forall|k: KeyView| occupied(after, k) == occupied(before, k) by {
                            if occupied(before, k) {
                                let p = position(before, k);
                                assert(after[p].key@ == k);
                            }
                        }
                    }
                }
            },
            None => {
                self.slots.push(Slot { key: key.duplicate(), value, ttl });
                proof {
                    let after = self.slots@;
                    let n = before.len() as int;
                    assert(contents_of(after) =~= contents_of(before).insert(key@, (value, ttl)))
                        by {
                        assert forall|k: KeyView|
                            occupied(after, k) == (occupied(before, k) || k == key@) by {
                            if occupied(before, k) {
                                let p = position(before, k);
                                assert(after[p].key@ == k);
                            }
                            if k == key@ {
                                assert(after[n].key@ == k);
                            }
                        }
                    }
                }
            },
        }
    }

    /// Vacates `key`.
    pub fn delete(&mut self, key: &DataKey)
        requires
            old(self).inv(),
        ensures
            final(self).inv(),
            final(self).contents() == old(self).contents().remove(key@),
    {
        let ghost before = self.slots@;
        match self.find(key) {
            Some(i) => {
                let _ = self.slots.swap_remove(i);
                proof {
                    let after = self.slots@;
                    let last = before.len() - 1;
                    assert(contents_of(after) =~= contents_of(before).remove(key@)) by {
                        assert forall|k: KeyView|
                            occupied(after, k) == (occupied(before, k) && k != key@) by {
                            if occupied(before, k) && k != key@ {
                                let p = position(before, k);
                                if p == last {
                                    assert(after[i as int] == before[last]);
                                } else {
                                    assert(after[p] == before[p]);
                                }
                            }
                        }
                    }
                }
            },
            None => {},
        }
    }

    /// Gives the entry under `key` exactly `ttl` ledgers to live, if there is one.
    pub fn set_ttl(&mut self, key: &DataKey, ttl: u32)
        requires
            old(self).inv(),
        ensures
            final(self).inv(),
            final(self).contents() == if old(self).contents().contains_key(key@) {
                old(self).contents().insert(key@, (old(self).contents()[key@].0, ttl))
            } else {
                old(self).contents()
            },
    {
        let ghost before = self.slots@;
        match self.find(key) {
            Some(i) => {
                self.slots[i].ttl = ttl;
                proof {
                    let after = self.slots@;
                    assert(contents_of(after) =~= contents_of(before).insert(
                        key@,
                        (contents_of(before)[key@].0, ttl),
                    )) by {
                        assert forall|k: KeyView| occupied(after, k) == occupied(before, k) by {
                            if occupied(before, k) {
                                let p = position(before, k);
                                assert(after[p].key@ == k);
                            }
                        }
                    }
                }
            },
            None => {},
        }
    }

    /// Lets `ledgers` ledgers pass: every entry loses that much lifetime, and
    /// those that do not survive are dropped.
    pub fn advance(&mut self, ledgers: u32, through_last: bool)
        requires
            old(self).inv(),
        ensures
            final(self).inv(),
            final(self).contents() == aged(old(self).contents(), ledgers, through_last),
    {
        let ghost before = self.slots@;
        let mut kept: Vec<Slot<V>> = Vec::new();
        while self.slots.len() > 0
            invariant
                keys_unique(self.slots@),
                keys_unique(kept@),
                forall|i: int|
                    0 <= i < self.slots@.len() ==> contents_of(before).contains_key(
                        (#[trigger] self.slots@[i]).key@,
                    ) && contents_of(before)[self.slots@[i].key@] == (
                        self.slots@[i].value,
                        self.slots@[i].ttl,
                    ),
                forall|i: int|
                    0 <= i < kept@.len() ==> {
                        let k = (#[trigger] kept@[i]).key@;
                        &&& contents_of(before).contains_key(k)
                        &&& survives(contents_of(before)[k].1, ledgers, through_last)
                        &&& kept@[i].value == contents_of(before)[k].0
                        &&& kept@[i].ttl == contents_of(before)[k].1 - ledgers
                        &&& !occupied(self.slots@, k)
                    },
                forall|k: KeyView|
                    #![trigger occupied(before, k)]
                    occupied(before, k) ==> occupied(self.slots@, k) || occupied(kept@, k)
                        || !survives(contents_of(before)[k].1, ledgers, through_last),
            decreases self.slots@.len(),
        {
            let ghost rest = self.slots@;
            let ghost done = kept@;
            let slot = self.slots.pop().unwrap();
            proof {
                assert forall|k: KeyView| k != slot.key@ && occupied(rest, k) implies occupied(
                    self.slots@,
                    k,
                ) by {
                    let p = position(rest, k);
                    assert(self.slots@[p].key@ == k);
                }
            }
            let stays = if through_last {
                slot.ttl >= ledgers
            } else {
                slot.ttl > ledgers
            };
            if stays {
                let left: u32 = slot.ttl - ledgers;
                kept.push(Slot { key: slot.key, value: slot.value, ttl: left });
                proof {
                    let m = done.len() as int;
                    assert(kept@[m].key@ == slot.key@);
                    assert forall|k: KeyView| occupied(done, k) implies occupied(kept@, k) by {
                        let p = position(done, k);
                        assert(kept@[p].key@ == k);
                    }
                }
            }
        }
        self.slots = kept;
    }
}

} // verus!
