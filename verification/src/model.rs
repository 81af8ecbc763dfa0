//! The mathematical model of an inventory: a sequence of items in insertion
//! order together with the number of slots it was created with.

use vstd::prelude::*;
use crate::item::Item;

verus! {

/// The sum of the worth of every item of `entries`.
pub open spec fn total_of(entries: Seq<Item>) -> nat
    decreases entries.len(),
{
    if entries.len() == 0 {
        0
    } else {
        total_of(entries.drop_last()) + entries.last().value as nat
    }
}

/// What an inventory is, as plain mathematics.
pub struct InventoryModel {
    /// The stored items, oldest first. An item's position is its index here.
    pub entries: Seq<Item>,
    /// The number of slots, fixed at creation.
    pub capacity: nat,
}

impl InventoryModel {
    /// The one invariant: an inventory never holds more items than it has
    /// slots.
    pub open spec fn wf(self) -> bool {
        self.entries.len() <= self.capacity
    }

    /// The inventory with `capacity` slots and nothing in them.
    pub open spec fn empty(capacity: nat) -> Self {
        InventoryModel { entries: Seq::empty(), capacity }
    }

    /// The number of stored items.
    pub open spec fn len(self) -> nat {
        self.entries.len()
    }

    /// Whether every slot is taken. Stated with `>=`, so that it also covers
    /// a model that is not well formed.
    pub open spec fn is_full(self) -> bool {
        self.entries.len() >= self.capacity
    }

    /// Whether `index` is the position of a stored item.
    pub open spec fn in_range(self, index: int) -> bool {
        0 <= index < self.entries.len()
    }

    /// The inventory after an attempt to add `item`: with the item appended
    /// behind all others where a slot is free, unchanged where none is.
    pub open spec fn after_insert(self, item: Item) -> Self {
        if self.is_full() {
            self
        } else {
            InventoryModel { entries: self.entries.push(item), capacity: self.capacity }
        }
    }

    /// The inventory after an attempt to remove the item at `index`: with the
    /// gap closed where `index` is in range, unchanged where it is not.
    pub open spec fn after_remove(self, index: int) -> Self {
        if self.in_range(index) {
            InventoryModel { entries: self.entries.remove(index), capacity: self.capacity }
        } else {
            self
        }
    }

    /// The sum of the worth of every stored item.
    pub open spec fn total_value(self) -> nat {
        total_of(self.entries)
    }

    /// The inventory after attempts to add each item of `items`, first to
    /// last.
    pub open spec fn after_insert_all(self, items: Seq<Item>) -> Self
        decreases items.len(),
    {
        if items.len() == 0 {
            self
        } else {
            self.after_insert_all(items.drop_last()).after_insert(items.last())
        }
    }
}

/// Appending an item adds its worth to the sum.
pub proof fn lemma_total_of_push(entries: Seq<Item>, item: Item)
    ensures
        total_of(entries.push(item)) == total_of(entries) + item.value,
{
    assert(entries.push(item).drop_last() =~= entries);
}

/// Removing the item at a position takes its worth from the sum.
pub proof fn lemma_total_of_remove(entries: Seq<Item>, index: int)
    requires
        0 <= index < entries.len(),
    ensures
        total_of(entries.remove(index)) == total_of(entries) - entries[index].value,
    decreases entries.len(),
{
    let last: int = entries.len() - 1;
    if index == last {
        assert(entries.remove(index) =~= entries.drop_last());
    } else {
        lemma_total_of_remove(entries.drop_last(), index);
        assert(entries.remove(index).drop_last() =~= entries.drop_last().remove(index));
        assert(entries.remove(index).last() == entries.last());
    }
}

/// No item is worth more than `u32::MAX`, so the sum is at most that many
/// times the number of items.
pub proof fn lemma_total_of_bound(entries: Seq<Item>)
    ensures
        total_of(entries) <= entries.len() * u32::MAX,
    decreases entries.len(),
{
    if entries.len() > 0 {
        lemma_total_of_bound(entries.drop_last());
    }
}

} // verus!
