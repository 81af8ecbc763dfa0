//! The unit an inventory stores.

use vstd::prelude::*;

verus! {

/// The closed set of kinds an item can have. A kind is a label only: no
/// operation of the inventory depends on it.
#[derive(Debug, Clone, Copy, PartialEq, Eq, Structural)]
pub enum ItemType {
    Weapon,
    Armor,
    Potion,
}

impl ItemType {
    /// The text a kind is shown as: the name of the kind itself.
    pub open spec fn label_text(self) -> Seq<char> {
        match self {
            ItemType::Weapon => "Weapon"@,
            ItemType::Armor => "Armor"@,
            ItemType::Potion => "Potion"@,
        }
    }

    /// The name of the kind, for display.
    pub fn label(&self) -> (text: &'static str)
        ensures
            text@ == self.label_text(),
    {
        match self {
            ItemType::Weapon => "Weapon",
            ItemType::Armor => "Armor",
            ItemType::Potion => "Potion",
        }
    }
}

/// A named item with a kind and a worth. Items are plain values: the
/// inventory stores, returns and hands them back whole.
#[derive(Debug, Clone, PartialEq, Eq)]
pub struct Item {
    pub name: String,
    pub item_type: ItemType,
    pub value: u32,
}

} // verus!
