//! A hash map from `(index, generation)` pairs to values that hashes with FNV.
//!
//! The map is the standard library's `HashMap` built with the hasher of the
//! `fnv` crate. Verus knows what such a map holds (its view, a `Map`) but not
//! what its methods do under a hasher other than the default one. The
//! functions of this module make those calls; their contracts are believed,
//! not proved, and say what the standard library documents of each method for
//! a key type whose `Hash` and `Eq` agree and a hasher that is a function of
//! the bytes written to it, which the FNV hasher is.
use vstd::prelude::*;
use std::collections::HashMap;
use std::hash::BuildHasherDefault;
use fnv::FnvHasher;
use crate::entity::{Generation, Index};

verus! {

/// `fnv::FnvHasher`, the state of an FNV-1a hash. Opaque here.
#[verifier::external_type_specification]
#[verifier::external_body]
pub struct ExFnvHasher(fnv::FnvHasher);

/// `std::hash::BuildHasherDefault`, which makes a hasher from its `Default`.
/// Opaque here.
#[verifier::external_type_specification]
#[verifier::external_body]
#[verifier::reject_recursive_types(H)]
pub struct ExBuildHasherDefault<H>(std::hash::BuildHasherDefault<H>);

/// The key of an entry: the index and the generation of an entity.
pub type Key = (Index, Generation);

/// A map from keys to `T` with FNV hashing.
pub type FnvMap<T> = HashMap<Key, T, BuildHasherDefault<FnvHasher>>;

/// Calls `HashMap::get`.
///
/// Believed: the result refers to the value stored under `key`, and is `None`
/// exactly when the map has no entry under `key`.
#[verifier::external_body]
pub(crate) fn fnv_map_get<'a, T>(map: &'a FnvMap<T>, key: &Key) -> (found: Option<&'a T>)
    ensures
        match found {
            Some(value) => map@.contains_key(*key) && *value == map@[*key],
            None => !map@.contains_key(*key),
        },
{
    map.get(key)
}

/// Calls `HashMap::get_mut`.
///
/// Believed: the result refers to the value stored under `key`, and is `None`
/// exactly when the map has no entry under `key`; the map changes only in
/// that value, by what the caller writes through the result.
#[verifier::external_body]
pub(crate) fn fnv_map_get_mut<'a, T>(map: &'a mut FnvMap<T>, key: &Key) -> (found: Option<
    &'a mut T,
>)
    ensures
        match found {
            Some(value) => old(map)@.contains_key(*key) && *value == old(map)@[*key] && final(map)@ == old(map)@.insert(*key, *final(value)),
            None => !old(map)@.contains_key(*key) && final(map)@ == old(map)@,
        },
{
    map.get_mut(key)
}

/// Calls `HashMap::insert`.
///
/// Believed: afterwards the map holds `value` under `key` and is otherwise
/// unchanged; the result is the value that `key` had before, if any.
#[verifier::external_body]
pub(crate) fn fnv_map_insert<T>(map: &mut FnvMap<T>, key: Key, value: T) -> (previous: Option<T>)
    ensures
        final(map)@ == old(map)@.insert(key, value),
        previous == (if old(map)@.contains_key(key) {
            Some(old(map)@[key])
        } else {
            None
        }),
{
    map.insert(key, value)
}

/// Calls `HashMap::remove`.
///
/// Believed: afterwards the map has no entry under `key` and is otherwise
/// unchanged; the result is the value that `key` had before, if any.
#[verifier::external_body]
pub(crate) fn fnv_map_remove<T>(map: &mut FnvMap<T>, key: &Key) -> (taken: Option<T>)
    ensures
        final(map)@ == old(map)@.remove(*key),
        taken == (if old(map)@.contains_key(*key) {
            Some(old(map)@[*key])
        } else {
            None
        }),
{
    map.remove(key)
}

} // verus!
