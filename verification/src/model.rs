//! The mathematical model of both storage strategies.
//!
//! A dense storage is a sequence of slots, each empty or holding a generation
//! and a value. A sparse storage is a map from entities to values.
use vstd::prelude::*;
use crate::entity::{Entity, Generation, Index};

verus! {

/// What a typed read of `entity` finds in a sequence of slots: the value in
/// the slot of its index, if that slot exists, is occupied and carries the
/// entity's generation.
pub open spec fn slot_value<T>(slots: Seq<Option<(Generation, T)>>, entity: Entity) -> Option<T> {
    if entity.index < slots.len() {
        match slots[entity.index as int] {
            Some((generation, value)) => if generation == entity.generation {
                Some(value)
            } else {
                None
            },
            None => None,
        }
    } else {
        None
    }
}

/// The slots extended by empty ones until position `index` exists.
pub open spec fn slots_grown<T>(slots: Seq<Option<(Generation, T)>>, index: int) -> Seq<
    Option<(Generation, T)>,
> {
    if index < slots.len() {
        slots
    } else {
        slots + Seq::new((index + 1 - slots.len()) as nat, |i: int| None::<(Generation, T)>)
    }
}

/// The slots after `value` was inserted for `entity`: grown to cover its
/// index, then overwritten there whatever the slot held.
pub open spec fn slots_inserted<T>(
    slots: Seq<Option<(Generation, T)>>,
    entity: Entity,
    value: T,
) -> Seq<Option<(Generation, T)>> {
    slots_grown(slots, entity.index as int).update(
        entity.index as int,
        Some((entity.generation, value)),
    )
}

/// The slots after `value` was written through mutable access to `entity`:
/// the value in its slot is replaced if a typed read would have found one,
/// and nothing changes otherwise.
pub open spec fn slots_written<T>(
    slots: Seq<Option<(Generation, T)>>,
    entity: Entity,
    value: T,
) -> Seq<Option<(Generation, T)>> {
    if slot_value(slots, entity) is Some {
        slots.update(entity.index as int, Some((entity.generation, value)))
    } else {
        slots
    }
}

/// The slots after a typed removal of `entity`: its slot is emptied if a typed
/// read would have found a value, and nothing changes otherwise.
pub open spec fn slots_removed<T>(slots: Seq<Option<(Generation, T)>>, entity: Entity) -> Seq<
    Option<(Generation, T)>,
> {
    if slot_value(slots, entity) is Some {
        slots.update(entity.index as int, None)
    } else {
        slots
    }
}

/// The slots after `entity` was deleted: the slot of its index is emptied if
/// it exists, whatever generation it carried.
pub open spec fn slots_cleared<T>(slots: Seq<Option<(Generation, T)>>, entity: Entity) -> Seq<
    Option<(Generation, T)>,
> {
    if entity.index < slots.len() {
        slots.update(entity.index as int, None)
    } else {
        slots
    }
}

/// What a read of `entity` finds in a map of entries.
pub open spec fn entry_value<T>(entries: Map<Entity, T>, entity: Entity) -> Option<T> {
    if entries.contains_key(entity) {
        Some(entries[entity])
    } else {
        None
    }
}

/// The key under which the sparse strategy files an entity.
pub open spec fn key_of(entity: Entity) -> (Index, Generation) {
    (entity.index, entity.generation)
}

/// The entries of a map keyed by `(index, generation)`, by entity.
pub open spec fn entries_by_entity<T>(keyed: Map<(Index, Generation), T>) -> Map<Entity, T> {
    Map::new(|entity: Entity| keyed.contains_key(key_of(entity)), |entity: Entity| keyed[key_of(entity)])
}

/// A keyed map without entries has no entries by entity.
pub proof fn lemma_entries_of_empty<T>()
    ensures
        entries_by_entity(Map::<(Index, Generation), T>::empty()) == Map::<Entity, T>::empty(),
{
    assert(entries_by_entity(Map::<(Index, Generation), T>::empty()) =~= Map::<Entity, T>::empty());
}

/// Filing a value under an entity's key is inserting it for that entity.
pub proof fn lemma_entries_of_insert<T>(keyed: Map<(Index, Generation), T>, entity: Entity, value: T)
    ensures
        entries_by_entity(keyed.insert(key_of(entity), value)) == entries_by_entity(keyed).insert(
            entity,
            value,
        ),
{
    assert forall|other: Entity| other != entity implies key_of(other) != key_of(entity) by {}
    assert(entries_by_entity(keyed.insert(key_of(entity), value)) =~= entries_by_entity(
        keyed,
    ).insert(entity, value));
}

/// Removing an entity's key is removing that entity.
pub proof fn lemma_entries_of_remove<T>(keyed: Map<(Index, Generation), T>, entity: Entity)
    ensures
        entries_by_entity(keyed.remove(key_of(entity))) == entries_by_entity(keyed).remove(entity),
{
    assert forall|other: Entity| other != entity implies key_of(other) != key_of(entity) by {}
    assert(entries_by_entity(keyed.remove(key_of(entity))) =~= entries_by_entity(keyed).remove(
        entity,
    ));
}

} // verus!
