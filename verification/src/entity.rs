//! Entity identity: a slot index together with the generation of its occupant.
use vstd::prelude::*;

verus! {

/// The number of a storage slot.
pub type Index = u32;

/// Tells successive occupants of one slot apart.
pub type Generation = u32;

/// A handle to a logical object. Two handles are equal when both fields are.
///
/// Any pair of numbers is a legal handle: whether it is valid depends only on
/// what a storage currently holds for its index.
#[derive(Clone, Copy, Debug, PartialEq, Eq, Hash, Structural)]
pub struct Entity {
    pub index: Index,
    pub generation: Generation,
}

impl Entity {
    /// The handle for slot `index` in generation `generation`.
    pub fn new(index: Index, generation: Generation) -> (entity: Entity)
        ensures
            entity.index == index,
            entity.generation == generation,
    {
        Entity { index, generation }
    }

    /// The slot of this handle, as a position in a sequence of slots.
    pub fn get_id(&self) -> (id: usize)
        ensures
            id == self.index,
    {
        self.index as usize
    }

    /// The generation of this handle.
    pub fn get_gen(&self) -> (generation: Generation)
        ensures
            generation == self.generation,
    {
        self.generation
    }
}

} // verus!
