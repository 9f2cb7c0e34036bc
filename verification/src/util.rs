//! Maps keyed by call identifier, and the rule by which they give memory back.
//!
//! The maps are `fnv::FnvHashMap`: the standard hash map with the
//! Fowler-Noll-Vo hash, which is fast on small integer keys. The functions at
//! the top of this file call the map's methods and say what is taken on trust
//! of each.

use fnv::FnvHashMap;
use vstd::prelude::*;

verus! {

/// `fnv::FnvHasher`: the state of a Fowler-Noll-Vo hash.
#[verifier::external_type_specification]
#[verifier::external_body]
pub struct ExFnvHasher(fnv::FnvHasher);

/// `std::hash::BuildHasherDefault`: makes hashers by `Default`.
#[verifier::external_type_specification]
#[verifier::external_body]
#[verifier::reject_recursive_types(H)]
pub struct ExBuildHasherDefault<H>(std::hash::BuildHasherDefault<H>);

/// Calls `HashMap::contains_key` on a map that hashes with `fnv`.
///
/// Taken on trust: the result says whether the map holds the key.
#[verifier::external_body]
pub(crate) fn map_contains<V>(map: &FnvHashMap<u64, V>, key: u64) -> (found: bool)
    ensures
        found == map@.contains_key(key),
{
    map.contains_key(&key)
}

/// Calls `HashMap::insert` on a map that hashes with `fnv`.
///
/// Taken on trust: afterwards the map holds `value` under `key` and is
/// otherwise as before, and the result is what it held under `key` before.
#[verifier::external_body]
pub(crate) fn map_insert<V>(map: &mut FnvHashMap<u64, V>, key: u64, value: V) -> (before: Option<V>)
    ensures
        final(map)@ == old(map)@.insert(key, value),
        before == (if old(map)@.contains_key(key) {
            Some(old(map)@[key])
        } else {
            None
        }),
{
    map.insert(key, value)
}

/// Calls `HashMap::remove` on a map that hashes with `fnv`.
///
/// Taken on trust: afterwards the map holds nothing under `key` and is
/// otherwise as before, and the result is what it held under `key` before.
#[verifier::external_body]
pub(crate) fn map_remove<V>(map: &mut FnvHashMap<u64, V>, key: u64) -> (before: Option<V>)
    ensures
        final(map)@ == old(map)@.remove(key),
        before == (if old(map)@.contains_key(key) {
            Some(old(map)@[key])
        } else {
            None
        }),
{
    map.remove(&key)
}

/// Calls `HashMap::len` on a map that hashes with `fnv`.
///
/// Taken on trust: the result is the number of keys that the map holds.
#[verifier::external_body]
pub(crate) fn map_len<V>(map: &FnvHashMap<u64, V>) -> (n: usize)
    ensures
        n == map@.len(),
{
    map.len()
}

/// Calls `HashMap::capacity` on a map that hashes with `fnv`.
///
/// Nothing is claimed of the result: how much room a map holds is the
/// allocator's business.
#[verifier::external_body]
pub(crate) fn map_capacity<V>(map: &FnvHashMap<u64, V>) -> usize {
    map.capacity()
}

/// Calls `HashMap::shrink_to` on a map that hashes with `fnv`.
///
/// Taken on trust: the map holds what it held before. Nothing is claimed of
/// the room that is left.
#[verifier::external_body]
pub(crate) fn map_shrink_to<V>(map: &mut FnvHashMap<u64, V>, min_capacity: usize)
    ensures
        final(map)@ == old(map)@,
{
    map.shrink_to(min_capacity)
}

/// The room per entry below which the table of calls in flight does not
/// compact its map: a map is compacted once it has room for more than this
/// many times the entries that it holds, that is, once less than a tenth of it
/// is in use.
pub const SLOTS_PER_ENTRY: usize = 10;

/// Whether a map that holds `len` entries in room for `capacity` has more
/// than `slots_per_entry` times the room that it needs.
pub open spec fn is_sparse(len: int, capacity: int, slots_per_entry: int) -> bool {
    len * slots_per_entry < capacity
}

/// The room that a compacted map of `len` entries keeps at least:
/// `slots_per_entry` times what it holds, as far as that can be counted.
pub open spec fn room_for(len: int, slots_per_entry: int) -> int {
    if len * slots_per_entry <= usize::MAX {
        len * slots_per_entry
    } else {
        usize::MAX as int
    }
}

/// Whether a map with `len` entries and room for `capacity` is due for
/// compaction.
pub fn compaction_due(len: usize, capacity: usize, slots_per_entry: usize) -> (due: bool)
    ensures
        due == is_sparse(len as int, capacity as int, slots_per_entry as int),
{
    match len.checked_mul(slots_per_entry) {
        Some(wanted) => wanted < capacity,
        None => false,
    }
}

/// The room down to which a map with `len` entries is compacted.
pub fn compaction_target(len: usize, slots_per_entry: usize) -> (target: usize)
    ensures
        target == room_for(len as int, slots_per_entry as int),
{
    match len.checked_mul(slots_per_entry) {
        Some(wanted) => wanted,
        None => usize::MAX,
    }
}

/// Gives back room that a map does not need: where the map has more than
/// `slots_per_entry` times the room that its entries take, it is shrunk down
/// to that. A map that is fuller is left alone, so that a removal seldom pays
/// for a rebuild.
///
/// The map holds afterwards what it held before. How much room it occupies is
/// not stated: that is between the map and its allocator.
pub fn compact<V>(map: &mut FnvHashMap<u64, V>, slots_per_entry: usize)
    ensures
        final(map)@ == old(map)@,
{
    let len: usize = map_len(map);
    let capacity: usize = map_capacity(map);
    if compaction_due(len, capacity, slots_per_entry) {
        map_shrink_to(map, compaction_target(len, slots_per_entry));
    }
}

} // verus!
