//! Component storage for an entity/component data model.
//!
//! An [`Entity`] is a handle made of a slot index and a generation. A storage
//! associates component values with such handles and checks the generation on
//! every typed access, so that a handle to a recycled slot never reaches the
//! data of the slot's new occupant.
//!
//! Two strategies exist and deliberately differ:
//!
//! * [`VecStorage`] keeps one slot per index. An insert overwrites whatever the
//!   slot held, whatever its generation, and a delete clears the slot whatever
//!   its generation.
//! * [`HashMapStorage`] keys its entries by index and generation together. Two
//!   generations of one index live side by side, and a delete with a stale
//!   generation does nothing.
//!
//! Callers that move a component from one strategy to the other will observe
//! this difference.
pub mod entity;
pub mod fnv_map;
pub mod laws;
pub mod model;
pub mod storage;

pub use crate::entity::{Entity, Generation, Index};
pub use crate::storage::{HashMapStorage, Storage, StorageBase, VecStorage};
