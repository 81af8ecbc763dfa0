//! A bounded, insertion-ordered inventory of items.
//!
//! The executable type [`Inventory`] is verified against the mathematical
//! model [`model::InventoryModel`], and the laws that connect its operations
//! are proved in [`laws`].

pub mod item;
pub mod model;
pub mod inventory;
pub mod laws;

pub use inventory::{InsertError, Inventory, RemoveError};
pub use item::{Item, ItemType};
