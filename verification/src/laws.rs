//! What holds of the two strategies across several operations, proved over
//! the model that the contracts of the storages are stated in.
use vstd::prelude::*;
use crate::entity::{Entity, Generation};
use crate::model::{entry_value, slot_value, slots_cleared, slots_inserted, slots_removed, slots_written};

verus! {

/// Dense: a read of an entity right after an insert for it finds the inserted
/// value.
pub proof fn lemma_dense_insert_then_get<T>(
    slots: Seq<Option<(Generation, T)>>,
    entity: Entity,
    value: T,
)
    ensures
        slot_value(slots_inserted(slots, entity, value), entity) == Some(value),
{
}

/// Sparse: a read of an entity right after an insert for it finds the
/// inserted value.
pub proof fn lemma_sparse_insert_then_get<T>(entries: Map<Entity, T>, entity: Entity, value: T)
    ensures
        entry_value(entries.insert(entity, value), entity) == Some(value),
{
}

/// Dense: after an insert for one generation of an index, a read under any
/// other generation of that index finds nothing; and once the slot has been
/// overwritten by an insert for the other generation, a read under the first
/// finds nothing while a read under the second finds the second value.
pub proof fn lemma_dense_generation_gates<T>(
    slots: Seq<Option<(Generation, T)>>,
    first: Entity,
    first_value: T,
    second: Entity,
    second_value: T,
)
    requires
        first.index == second.index,
        first.generation != second.generation,
    ensures
        slot_value(slots_inserted(slots, first, first_value), second) is None,
        slot_value(
            slots_inserted(slots_inserted(slots, first, first_value), second, second_value),
            first,
        ) is None,
        slot_value(
            slots_inserted(slots_inserted(slots, first, first_value), second, second_value),
            second,
        ) == Some(second_value),
{
}

/// Sparse: after inserts for two generations of one index, a read under each
/// finds its own value.
pub proof fn lemma_sparse_generations_coexist<T>(
    entries: Map<Entity, T>,
    first: Entity,
    first_value: T,
    second: Entity,
    second_value: T,
)
    requires
        first.index == second.index,
        first.generation != second.generation,
    ensures
        entry_value(entries.insert(first, first_value).insert(second, second_value), first)
            == Some(first_value),
        entry_value(entries.insert(first, first_value).insert(second, second_value), second)
            == Some(second_value),
{
}

/// Dense: where a slot holds a value under one generation, a removal under
/// another generation of that index finds nothing and changes nothing, so the
/// value is still read under the stored generation.
pub proof fn lemma_dense_remove_is_generation_exact<T>(
    slots: Seq<Option<(Generation, T)>>,
    stored: Entity,
    value: T,
    stale: Entity,
)
    requires
        slot_value(slots, stored) == Some(value),
        stale.index == stored.index,
        stale.generation != stored.generation,
    ensures
        slot_value(slots, stale) is None,
        slots_removed(slots, stale) == slots,
        slot_value(slots_removed(slots, stale), stored) == Some(value),
{
}

/// Sparse: a removal under another generation never touches the entry of the
/// stored generation; where the other generation has no entry of its own, the
/// removal finds nothing and changes nothing.
pub proof fn lemma_sparse_remove_is_generation_exact<T>(
    entries: Map<Entity, T>,
    stored: Entity,
    value: T,
    stale: Entity,
)
    requires
        entry_value(entries, stored) == Some(value),
        stale.index == stored.index,
        stale.generation != stored.generation,
    ensures
        entry_value(entries.remove(stale), stored) == Some(value),
        !entries.contains_key(stale) ==> entry_value(entries, stale) is None && entries.remove(
            stale,
        ) == entries,
{
    if !entries.contains_key(stale) {
        assert(entries.remove(stale) =~= entries);
    }
}

/// Dense: after a removal of an entity a second removal of it finds nothing
/// and changes nothing.
pub proof fn lemma_dense_remove_twice<T>(slots: Seq<Option<(Generation, T)>>, entity: Entity)
    ensures
        slot_value(slots_removed(slots, entity), entity) is None,
        slots_removed(slots_removed(slots, entity), entity) == slots_removed(slots, entity),
{
}

/// Sparse: after a removal of an entity a second removal of it finds nothing
/// and changes nothing.
pub proof fn lemma_sparse_remove_twice<T>(entries: Map<Entity, T>, entity: Entity)
    ensures
        entry_value(entries.remove(entity), entity) is None,
        entries.remove(entity).remove(entity) == entries.remove(entity),
{
    assert(entries.remove(entity).remove(entity) =~= entries.remove(entity));
}

/// Dense: a delete under any generation of an index empties the slot, so a
/// read under the generation that was inserted finds nothing.
pub proof fn lemma_dense_delete_is_unconditional<T>(
    slots: Seq<Option<(Generation, T)>>,
    inserted: Entity,
    value: T,
    deleted: Entity,
)
    requires
        deleted.index == inserted.index,
    ensures
        slot_value(slots_cleared(slots_inserted(slots, inserted, value), deleted), inserted) is None,
        slots_cleared(slots_inserted(slots, inserted, value), deleted)[inserted.index as int] is None,
{
}

/// Sparse: a delete under another generation leaves the inserted entry in
/// place; where the other generation has no entry of its own, the delete
/// changes nothing at all.
pub proof fn lemma_sparse_delete_is_exact<T>(
    entries: Map<Entity, T>,
    inserted: Entity,
    value: T,
    deleted: Entity,
)
    requires
        deleted.index == inserted.index,
        deleted.generation != inserted.generation,
    ensures
        entry_value(entries.insert(inserted, value).remove(deleted), inserted) == Some(value),
        !entries.contains_key(deleted) ==> entries.insert(inserted, value).remove(deleted)
            == entries.insert(inserted, value),
{
    if !entries.contains_key(deleted) {
        assert(entries.insert(inserted, value).remove(deleted) =~= entries.insert(inserted, value));
    }
}

/// Dense: an insert leaves every slot of another index as it was, and so
/// every read at another index.
pub proof fn lemma_dense_insert_keeps_other_indices<T>(
    slots: Seq<Option<(Generation, T)>>,
    entity: Entity,
    value: T,
    other: Entity,
)
    requires
        other.index != entity.index,
    ensures
        other.index < slots.len() ==> slots_inserted(slots, entity, value)[other.index as int]
            == slots[other.index as int],
        slot_value(slots_inserted(slots, entity, value), other) == slot_value(slots, other),
{
}

/// One step that changes a dense storage.
pub enum DenseStep<T> {
    /// An insert of a value for an entity.
    Insert(Entity, T),
    /// A write of a value through mutable access to an entity.
    Write(Entity, T),
    /// A typed removal of an entity.
    Remove(Entity),
    /// A delete of an entity.
    Delete(Entity),
}

/// The slots after one step.
pub open spec fn slots_after_step<T>(slots: Seq<Option<(Generation, T)>>, step: DenseStep<T>) -> Seq<
    Option<(Generation, T)>,
> {
    match step {
        DenseStep::Insert(entity, value) => slots_inserted(slots, entity, value),
        DenseStep::Write(entity, value) => slots_written(slots, entity, value),
        DenseStep::Remove(entity) => slots_removed(slots, entity),
        DenseStep::Delete(entity) => slots_cleared(slots, entity),
    }
}

/// The slots after a sequence of steps, taken in order.
pub open spec fn slots_after_steps<T>(
    slots: Seq<Option<(Generation, T)>>,
    steps: Seq<DenseStep<T>>,
) -> Seq<Option<(Generation, T)>>
    decreases steps.len(),
{
    if steps.len() == 0 {
        slots
    } else {
        slots_after_step(slots_after_steps(slots, steps.drop_last()), steps.last())
    }
}

/// Dense: no step makes the sequence of slots shorter.
pub proof fn lemma_dense_step_never_shrinks<T>(
    slots: Seq<Option<(Generation, T)>>,
    step: DenseStep<T>,
)
    ensures
        slots_after_step(slots, step).len() >= slots.len(),
{
}

/// Dense: no sequence of steps makes the sequence of slots shorter.
pub proof fn lemma_dense_never_shrinks<T>(
    slots: Seq<Option<(Generation, T)>>,
    steps: Seq<DenseStep<T>>,
)
    ensures
        slots_after_steps(slots, steps).len() >= slots.len(),
    decreases steps.len(),
{
    if steps.len() > 0 {
        lemma_dense_never_shrinks(slots, steps.drop_last());
        lemma_dense_step_never_shrinks(slots_after_steps(slots, steps.drop_last()), steps.last());
    }
}

} // verus!
