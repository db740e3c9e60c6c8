//! The key index: a `DashMap` from keys to slot numbers, seen through its
//! entries.
//!
//! Nothing in this file is proved. Each function makes one call into
//! `dashmap` and states what that call does to the entries of the map. The
//! map is only ever reached through an exclusive or a shared borrow of its
//! owner, so its entries change in these calls and nowhere else.

use dashmap::DashMap;
use vstd::prelude::*;

verus! {

/// `dashmap::DashMap`, taken as a type whose inside is not looked into.
#[verifier::external_type_specification]
#[verifier::external_body]
#[verifier::reject_recursive_types(K)]
#[verifier::reject_recursive_types(V)]
#[verifier::reject_recursive_types(S)]
pub struct ExDashMap<K, V, S>(DashMap<K, V, S>);

/// The entries of an index: the characters of each key it holds, and the slot
/// stored under that key.
pub uninterp spec fn entries(index: DashMap<String, usize>) -> Map<Seq<char>, usize>;

/// The slot that `entries` holds under `key`, if any.
pub open spec fn slot_at(entries: Map<Seq<char>, usize>, key: Seq<char>) -> Option<usize> {
    if entries.contains_key(key) {
        Some(entries[key])
    } else {
        None
    }
}

/// The largest capacity that is handed on to `DashMap::with_capacity`.
///
/// `with_capacity` rounds the request up to a multiple of its shard count and
/// sizes one table per shard; both computations give up on requests near the
/// top of `usize`. A request of this size is far below that on every target.
pub const MAX_CAPACITY_HINT: usize = 0x10_0000;

/// `DashMap::new`: a map that holds no entry.
#[verifier::external_body]
pub(crate) fn index_new() -> (index: DashMap<String, usize>)
    ensures
        entries(index) =~= Map::empty(),
{
    DashMap::new()
}

/// `DashMap::with_capacity`: a map that holds no entry, with room set aside
/// for `capacity` of them.
#[verifier::external_body]
pub(crate) fn index_with_capacity(capacity: usize) -> (index: DashMap<String, usize>)
    requires
        capacity <= MAX_CAPACITY_HINT,
    ensures
        entries(index) =~= Map::empty(),
{
    DashMap::with_capacity(capacity)
}

/// `DashMap::insert`: `key` now leads to `slot`, and every other key is as
/// before. The slot that `key` led to before is dropped.
#[verifier::external_body]
pub(crate) fn index_insert(index: &mut DashMap<String, usize>, key: String, slot: usize)
    ensures
        entries(*final(index)) == entries(*old(index)).insert(key@, slot),
{
    index.insert(key, slot);
}

/// `DashMap::remove`: `key` leads nowhere any more, every other key is as
/// before, and the slot that `key` led to is returned.
#[verifier::external_body]
pub(crate) fn index_remove(index: &mut DashMap<String, usize>, key: &str) -> (removed: Option<usize>)
    ensures
        entries(*final(index)) == entries(*old(index)).remove(key@),
        removed == slot_at(entries(*old(index)), key@),
{
    index.remove(key).map(|entry| entry.1)
}

/// `DashMap::get`: the slot that `key` leads to, if it leads anywhere.
#[verifier::external_body]
pub(crate) fn index_get(index: &DashMap<String, usize>, key: &str) -> (slot: Option<usize>)
    ensures
        slot == slot_at(entries(*index), key@),
{
    index.get(key).map(|entry| *entry.value())
}

} // verus!
