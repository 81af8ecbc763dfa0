//! Laws of the inventory, proved of the model that the contracts of
//! [`crate::inventory::Inventory`] are stated over.

use vstd::prelude::*;
use crate::item::Item;
use crate::model::{InventoryModel, lemma_total_of_push, lemma_total_of_remove};

verus! {

/// Neither adding nor removing can break the invariant: a well-formed
/// inventory stays well formed, with the capacity it was created with.
pub proof fn law_invariant_preserved(m: InventoryModel, item: Item, index: int)
    requires
        m.wf(),
    ensures
        m.after_insert(item).wf(),
        m.after_insert(item).capacity == m.capacity,
        m.after_remove(index).wf(),
        m.after_remove(index).capacity == m.capacity,
{
}

/// While the items still fit, adding a run of them appends the whole run, in
/// its order, behind what was stored.
pub proof fn law_insert_all_appends(m: InventoryModel, items: Seq<Item>)
    requires
        m.len() + items.len() <= m.capacity,
    ensures
        m.after_insert_all(items).entries == m.entries + items,
        m.after_insert_all(items).capacity == m.capacity,
    decreases items.len(),
{
    if items.len() == 0 {
        assert(m.entries + items =~= m.entries);
    } else {
        law_insert_all_appends(m, items.drop_last());
        assert((m.entries + items.drop_last()).push(items.last()) =~= m.entries + items);
    }
}

/// Filling an empty inventory: for every capacity, adding as many items as
/// there are slots succeeds each time, since before each step a slot is
/// free, and stores them in the order given. The inventory is then full,
/// and an attempt to add one more leaves the count and the stored items as
/// they were.
pub proof fn law_fill_then_reject(capacity: nat, items: Seq<Item>, extra: Item)
    requires
        items.len() == capacity,
    ensures
        forall|k: int|
            0 <= k < items.len() ==> !(#[trigger] InventoryModel::empty(capacity).after_insert_all(
                items.take(k),
            )).is_full(),
        forall|k: int|
            0 <= k <= items.len() ==> (#[trigger] InventoryModel::empty(capacity).after_insert_all(
                items.take(k),
            )).entries == items.take(k),
        InventoryModel::empty(capacity).after_insert_all(items).entries == items,
        InventoryModel::empty(capacity).after_insert_all(items).is_full(),
        InventoryModel::empty(capacity).after_insert_all(items).after_insert(extra)
            == InventoryModel::empty(capacity).after_insert_all(items),
        InventoryModel::empty(capacity).after_insert_all(items).after_insert(extra).len()
            == capacity,
{
    let start = InventoryModel::empty(capacity);
    assert forall|k: int| 0 <= k <= items.len() implies {
        &&& (#[trigger] start.after_insert_all(items.take(k))).entries == items.take(k)
        &&& start.after_insert_all(items.take(k)).capacity == capacity
    } by {
        law_insert_all_appends(start, items.take(k));
        assert(start.entries + items.take(k) =~= items.take(k));
    }
    assert(items.take(items.len() as int) =~= items);
}

/// Removing at a position that holds an item lowers the count by exactly one
/// and keeps the order of the rest: the items before the position stay where
/// they were, and each item behind it moves up by one.
pub proof fn law_remove_keeps_order(m: InventoryModel, index: int)
    requires
        m.in_range(index),
    ensures
        m.after_remove(index).len() == m.len() - 1,
        forall|i: int| 0 <= i < index ==> m.after_remove(index).entries[i] == m.entries[i],
        forall|i: int|
            index <= i < m.len() - 1 ==> m.after_remove(index).entries[i] == m.entries[i + 1],
{
}

/// Removing at a position that holds no item changes nothing, whether the
/// inventory is empty or not.
pub proof fn law_remove_out_of_range(m: InventoryModel, index: int)
    requires
        index >= m.len(),
    ensures
        m.after_remove(index) == m,
        m.after_remove(index).len() == m.len(),
{
}

/// An empty inventory is worth nothing.
pub proof fn law_total_value_of_empty(capacity: nat)
    ensures
        InventoryModel::empty(capacity).total_value() == 0,
{
}

/// Adding an item where a slot is free raises the total by the worth of
/// that item.
pub proof fn law_total_value_after_insert(m: InventoryModel, item: Item)
    requires
        !m.is_full(),
    ensures
        m.after_insert(item).total_value() == m.total_value() + item.value,
{
    lemma_total_of_push(m.entries, item);
}

/// Removing the item at a position lowers the total by the worth of that
/// item.
pub proof fn law_total_value_after_remove(m: InventoryModel, index: int)
    requires
        m.in_range(index),
    ensures
        m.after_remove(index).total_value() == m.total_value() - m.entries[index].value,
{
    lemma_total_of_remove(m.entries, index);
}

/// A well-formed inventory is full exactly when it holds as many items as it
/// has slots.
pub proof fn law_full_iff_count_is_capacity(m: InventoryModel)
    requires
        m.wf(),
    ensures
        m.is_full() <==> m.len() == m.capacity,
{
}

/// An inventory without slots holds nothing, is always full, and turns every
/// item away.
pub proof fn law_zero_capacity(m: InventoryModel, item: Item)
    requires
        m.wf(),
        m.capacity == 0,
    ensures
        m.len() == 0,
        m.is_full(),
        m.after_insert(item) == m,
{
}

} // verus!
