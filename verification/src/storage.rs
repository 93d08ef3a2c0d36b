//! The storage contracts and the two strategies that implement them.
use vstd::prelude::*;
use std::collections::HashMap;
use crate::entity::{Entity, Generation};
use crate::fnv_map::{fnv_map_get, fnv_map_get_mut, fnv_map_insert, fnv_map_remove, FnvMap};
use crate::model::{
    entries_by_entity, entry_value, key_of, lemma_entries_of_empty, lemma_entries_of_insert,
    lemma_entries_of_remove, slot_value, slots_cleared, slots_inserted, slots_removed,
    slots_written,
};

verus! {

/// The part of a component storage that does not depend on the component
/// type: what a registry needs to clean up after a destroyed entity.
pub trait StorageBase {
    /// Whether a typed read of `entity` finds a value.
    spec fn holds(&self, entity: Entity) -> bool;

    /// Deletes `entity` from the storage.
    ///
    /// Afterwards the storage holds nothing for `entity`, holds nothing that
    /// it did not hold before, and is unchanged at every other index. What
    /// happens to other generations of the same index is up to the strategy.
    fn del(&mut self, entity: Entity)
        ensures
            !final(self).holds(entity),
            forall|other: Entity| #[trigger] final(self).holds(other) ==> old(self).holds(other),
            forall|other: Entity|
                other.index != entity.index ==> #[trigger] final(self).holds(other) == old(self)
                    .holds(other),
    ;
}

/// Typed component storage.
pub trait Storage<T>: StorageBase + Sized {
    /// What a typed read of `entity` finds.
    spec fn lookup(&self, entity: Entity) -> Option<T>;

    /// A storage holds exactly the entities for which a read finds a value.
    proof fn lookup_agrees_with_holds(&self, entity: Entity)
        ensures
            self.holds(entity) <==> self.lookup(entity) is Some,
    ;

    /// An empty storage.
    fn new() -> (storage: Self)
        ensures
            forall|entity: Entity| #[trigger] storage.lookup(entity) is None,
    ;

    /// Reads the value associated with `entity`, if its generation is the one
    /// stored.
    fn get(&self, entity: Entity) -> (found: Option<&T>)
        ensures
            match found {
                Some(value) => self.lookup(entity) == Some(*value),
                None => self.lookup(entity) is None,
            },
    ;

    /// Mutable access to the value associated with `entity`, under the same
    /// condition as `get`. Only that value can change through the result.
    fn get_mut(&mut self, entity: Entity) -> (found: Option<&mut T>)
        ensures
            match found {
                Some(value) => old(self).lookup(entity) == Some(*value) && final(self).lookup(
                    entity,
                ) == Some(*final(value)),
                None => old(self).lookup(entity) is None && final(self).lookup(entity) is None,
            },
            forall|other: Entity|
                other != entity ==> #[trigger] final(self).lookup(other) == old(self).lookup(
                    other,
                ),
    ;

    /// Associates `value` with `entity`.
    ///
    /// Afterwards a read of `entity` finds `value`, and every other index is
    /// unchanged. What happens to other generations of the same index is up to
    /// the strategy.
    fn insert(&mut self, entity: Entity, value: T)
        ensures
            final(self).lookup(entity) == Some(value),
            forall|other: Entity|
                other.index != entity.index ==> #[trigger] final(self).lookup(other) == old(self)
                    .lookup(other),
    ;

    /// Takes out the value associated with `entity`, under the same condition
    /// as `get`. Nothing else changes; on a mismatch nothing changes at all.
    fn remove(&mut self, entity: Entity) -> (taken: Option<T>)
        ensures
            taken == old(self).lookup(entity),
            final(self).lookup(entity) is None,
            forall|other: Entity|
                other != entity ==> #[trigger] final(self).lookup(other) == old(self).lookup(
                    other,
                ),
    ;
}

/// The dense strategy: one slot per index, each empty or holding the
/// generation of its occupant and the value. The sequence of slots grows on
/// insert and never shrinks. Meant for components that most entities have.
#[derive(Debug)]
pub struct VecStorage<T>(pub Vec<Option<(Generation, T)>>);

impl<T> View for VecStorage<T> {
    type V = Seq<Option<(Generation, T)>>;

    /// The slots, by index.
    open spec fn view(&self) -> Seq<Option<(Generation, T)>> {
        self.0@
    }
}

impl<T> StorageBase for VecStorage<T> {
    open spec fn holds(&self, entity: Entity) -> bool {
        slot_value(self@, entity) is Some
    }

    /// Empties the slot of the entity's index, whatever generation it holds.
    fn del(&mut self, entity: Entity)
        ensures
            final(self)@ == slots_cleared(old(self)@, entity),
            final(self)@.len() == old(self)@.len(),
    {
        let id = entity.get_id();
        if id < self.0.len() {
            self.0[id] = None;
        }
    }
}

impl<T> Storage<T> for VecStorage<T> {
    open spec fn lookup(&self, entity: Entity) -> Option<T> {
        slot_value(self@, entity)
    }

    proof fn lookup_agrees_with_holds(&self, entity: Entity) {
    }

    /// A storage without slots.
    fn new() -> (storage: Self)
        ensures
            storage@ == Seq::<Option<(Generation, T)>>::empty(),
    {
        VecStorage(Vec::new())
    }

    fn get(&self, entity: Entity) -> (found: Option<&T>) {
        let id = entity.get_id();
        if id < self.0.len() {
            match &self.0[id] {
                Some((generation, value)) => if *generation == entity.get_gen() {
                    Some(value)
                } else {
                    None
                },
                None => None,
            }
        } else {
            None
        }
    }

    /// The slots change only in the value that the result refers to.
    fn get_mut(&mut self, entity: Entity) -> (found: Option<&mut T>)
        ensures
            match found {
                Some(value) => final(self)@ == slots_written(old(self)@, entity, *final(value)),
                None => final(self)@ == old(self)@,
            },
            final(self)@.len() == old(self)@.len(),
    {
        let id = entity.get_id();
        if id < self.0.len() {
            match &mut self.0[id] {
                Some((generation, value)) => if *generation == entity.get_gen() {
                    Some(value)
                } else {
                    None
                },
                None => None,
            }
        } else {
            None
        }
    }

    /// Grows the slots to cover the entity's index and overwrites that slot,
    /// whatever it held.
    fn insert(&mut self, entity: Entity, value: T)
        ensures
            final(self)@ == slots_inserted(old(self)@, entity, value),
            final(self)@.len() >= old(self)@.len(),
            final(self)@.len() > entity.index,
    {
        let id = entity.get_id();
        while self.0.len() <= id
            invariant
                id == entity.index,
                self.0@.len() > old(self)@.len() ==> self.0@.len() <= id + 1,
                self.0@.len() >= old(self)@.len(),
                self.0@ == old(self)@ + Seq::new(
                    (self.0@.len() - old(self)@.len()) as nat,
                    |i: int| None::<(Generation, T)>,
                ),
            decreases id + 1 - self.0@.len(),
        {
            self.0.push(None);
        }
        self.0[id] = Some((entity.get_gen(), value));
    }

    /// Empties the slot of the entity's index if it holds the entity's
    /// generation, and leaves the slots as they are otherwise.
    fn remove(&mut self, entity: Entity) -> (taken: Option<T>)
        ensures
            final(self)@ == slots_removed(old(self)@, entity),
            final(self)@.len() == old(self)@.len(),
    {
        let id = entity.get_id();
        if id < self.0.len() {
            let current = match &self.0[id] {
                Some((generation, _)) => *generation == entity.get_gen(),
                None => false,
            };
            if current {
                match self.0[id].take() {
                    Some((_, value)) => Some(value),
                    None => None,
                }
            } else {
                None
            }
        } else {
            None
        }
    }
}

/// The sparse strategy: a hash map from the whole entity, index and generation
/// together, to the value. Entries of one index under different generations
/// live side by side. Meant for components that few entities have.
#[derive(Debug)]
pub struct HashMapStorage<T>(pub FnvMap<T>);

impl<T> View for HashMapStorage<T> {
    type V = Map<Entity, T>;

    /// The entries, by entity.
    open spec fn view(&self) -> Map<Entity, T> {
        entries_by_entity(self.0@)
    }
}

impl<T> StorageBase for HashMapStorage<T> {
    open spec fn holds(&self, entity: Entity) -> bool {
        self@.contains_key(entity)
    }

    /// Removes the entry of exactly this entity; other generations of its
    /// index stay.
    fn del(&mut self, entity: Entity)
        ensures
            final(self)@ == old(self)@.remove(entity),
    {
        let key = (entity.index, entity.generation);
        proof {
            lemma_entries_of_remove(self.0@, entity);
        }
        let _ = fnv_map_remove(&mut self.0, &key);
    }
}

impl<T> Storage<T> for HashMapStorage<T> {
    open spec fn lookup(&self, entity: Entity) -> Option<T> {
        entry_value(self@, entity)
    }

    proof fn lookup_agrees_with_holds(&self, entity: Entity) {
    }

    /// A storage without entries.
    fn new() -> (storage: Self)
        ensures
            storage@ == Map::<Entity, T>::empty(),
    {
        proof {
            lemma_entries_of_empty::<T>();
        }
        HashMapStorage(HashMap::default())
    }

    fn get(&self, entity: Entity) -> (found: Option<&T>) {
        let key = (entity.index, entity.generation);
        fnv_map_get(&self.0, &key)
    }

    /// The entries change only in the value that the result refers to.
    fn get_mut(&mut self, entity: Entity) -> (found: Option<&mut T>)
        ensures
            match found {
                Some(value) => final(self)@ == old(self)@.insert(entity, *final(value)),
                None => final(self)@ == old(self)@,
            },
    {
        let key = (entity.index, entity.generation);
        proof {
            assert forall|value: T| #[trigger]
                entries_by_entity(self.0@.insert(key_of(entity), value)) == self@.insert(
                    entity,
                    value,
                ) by {
                lemma_entries_of_insert(self.0@, entity, value);
            }
        }
        fnv_map_get_mut(&mut self.0, &key)
    }

    /// Inserts or replaces the entry of exactly this entity; other
    /// generations of its index stay.
    fn insert(&mut self, entity: Entity, value: T)
        ensures
            final(self)@ == old(self)@.insert(entity, value),
    {
        let key = (entity.index, entity.generation);
        proof {
            lemma_entries_of_insert(self.0@, entity, value);
        }
        let _ = fnv_map_insert(&mut self.0, key, value);
    }

    /// Removes the entry of exactly this entity, if there is one.
    fn remove(&mut self, entity: Entity) -> (taken: Option<T>)
        ensures
            final(self)@ == old(self)@.remove(entity),
    {
        let key = (entity.index, entity.generation);
        proof {
            lemma_entries_of_remove(self.0@, entity);
        }
        fnv_map_remove(&mut self.0, &key)
    }
}

} // verus!
