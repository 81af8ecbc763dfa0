//! The executable inventory.

use vstd::prelude::*;
use crate::item::Item;
use crate::model::{InventoryModel, total_of, lemma_total_of_bound};

verus! {

/// Why an item could not be added.
#[derive(Debug, PartialEq, Eq)]
pub enum InsertError {
    /// Every slot was taken. Carries the name of the item that was turned
    /// away and the number of slots of the inventory.
    Full { name: String, capacity: usize },
}

/// Why an item could not be removed.
#[derive(Debug, Clone, Copy, PartialEq, Eq)]
pub enum RemoveError {
    /// No item is stored at the position. Carries that position.
    InvalidIndex { index: usize },
}

/// A list of items in insertion order that never grows beyond the number of
/// slots it was created with.
pub struct Inventory {
    items: Vec<Item>,
    max_slots: usize,
}

impl View for Inventory {
    type V = InventoryModel;

    closed spec fn view(&self) -> InventoryModel {
        InventoryModel { entries: self.items@, capacity: self.max_slots as nat }
    }
}

impl Inventory {
    #[verifier::type_invariant]
    spec fn within_capacity(self) -> bool {
        self.items@.len() <= self.max_slots
    }

    /// Creates an empty inventory with `max_slots` slots. Zero is allowed:
    /// such an inventory is full from the start.
    pub fn new(max_slots: usize) -> (inventory: Self)
        ensures
            inventory@.wf(),
            inventory@ == InventoryModel::empty(max_slots as nat),
    {
        Inventory { items: Vec::new(), max_slots }
    }

    /// Appends `item` behind all stored items if a slot is free. Otherwise
    /// the inventory stays as it was and the error names the item.
    pub fn add_item(&mut self, item: Item) -> (result: Result<(), InsertError>)
        ensures
            final(self)@.wf(),
            final(self)@ == old(self)@.after_insert(item),
            match result {
                Ok(_) => !old(self)@.is_full(),
                Err(InsertError::Full { name, capacity }) => {
                    &&& old(self)@.is_full()
                    &&& final(self)@ == old(self)@
                    &&& name == item.name
                    &&& capacity == old(self)@.capacity
                },
            },
    {
        proof {
            use_type_invariant(&*self);
        }
        if self.items.len() >= self.max_slots {
            return Err(InsertError::Full { name: item.name, capacity: self.max_slots });
        }
        // The list is taken out while it grows, so that the inventory itself
        // is within its capacity at every point.
        let mut items: Vec<Item> = Vec::new();
        std::mem::swap(&mut items, &mut self.items);
        items.push(item);
        self.items = items;
        Ok(())
    }

    /// Removes and returns the item at `index`; the items behind it move up
    /// by one and keep their order. With no item at `index` the inventory
    /// stays as it was.
    pub fn remove_item(&mut self, index: usize) -> (result: Result<Item, RemoveError>)
        ensures
            final(self)@.wf(),
            final(self)@ == old(self)@.after_remove(index as int),
            match result {
                Ok(item) => {
                    &&& old(self)@.in_range(index as int)
                    &&& item == old(self)@.entries[index as int]
                },
                Err(RemoveError::InvalidIndex { index: rejected }) => {
                    &&& !old(self)@.in_range(index as int)
                    &&& final(self)@ == old(self)@
                    &&& rejected == index
                },
            },
    {
        proof {
            use_type_invariant(&*self);
        }
        if index >= self.items.len() {
            return Err(RemoveError::InvalidIndex { index });
        }
        let mut items: Vec<Item> = Vec::new();
        std::mem::swap(&mut items, &mut self.items);
        let item = items.remove(index);
        self.items = items;
        Ok(item)
    }

    /// The item at `index`, or `None` where no item is stored there.
    pub fn get_item(&self, index: usize) -> (found: Option<&Item>)
        ensures
            self@.wf(),
            match found {
                Some(item) => {
                    &&& self@.in_range(index as int)
                    &&& *item == self@.entries[index as int]
                },
                None => !self@.in_range(index as int),
            },
    {
        proof {
            use_type_invariant(self);
        }
        if index < self.items.len() {
            Some(&self.items[index])
        } else {
            None
        }
    }

    /// Whether every slot is taken: no further item can be added.
    pub fn is_full(&self) -> (full: bool)
        ensures
            self@.wf(),
            full == self@.is_full(),
            full <==> self@.len() == self@.capacity,
    {
        proof {
            use_type_invariant(self);
        }
        self.items.len() >= self.max_slots
    }

    /// The sum of the worth of all stored items. The result is wide enough
    /// for any number of items, so it is exact.
    pub fn total_value(&self) -> (total: u128)
        ensures
            self@.wf(),
            total == self@.total_value(),
    {
        proof {
            use_type_invariant(self);
        }
        let mut total: u128 = 0;
        let mut i: usize = 0;
        while i < self.items.len()
            invariant
                i <= self.items.len(),
                total == total_of(self.items@.take(i as int)),
            decreases self.items.len() - i,
        {
            proof {
                lemma_total_of_bound(self.items@.take(i as int));
                assert(self.items@.take(i + 1).drop_last() =~= self.items@.take(i as int));
            }
            total = total + self.items[i].value as u128;
            i = i + 1;
        }
        proof {
            assert(self.items@.take(i as int) =~= self.items@);
        }
        total
    }

    /// The number of stored items.
    pub fn len(&self) -> (count: usize)
        ensures
            self@.wf(),
            count == self@.len(),
    {
        proof {
            use_type_invariant(self);
        }
        self.items.len()
    }

    /// The number of slots the inventory was created with.
    pub fn max_slots(&self) -> (slots: usize)
        ensures
            self@.wf(),
            slots == self@.capacity,
    {
        proof {
            use_type_invariant(self);
        }
        self.max_slots
    }
}

} // verus!
