//! The durable cell and the durable ordered map, as the stable-structures
//! crate provides them. Nothing in this file is proved: each contract states
//! what that crate's source shows of the call it wraps.

use ic_stable_structures::memory_manager::{MemoryId, MemoryManager, VirtualMemory};
use ic_stable_structures::DefaultMemoryImpl;
use vstd::prelude::*;

verus! {

/// A persisted `u64`: `ic_stable_structures::Cell` over a virtual memory.
#[verifier::external_body]
pub struct IdCell {
    inner: ic_stable_structures::Cell<u64, VirtualMemory<DefaultMemoryImpl>>,
}

/// A persisted map from `u64` keys to byte strings, kept in key order:
/// `ic_stable_structures::BTreeMap` over a virtual memory.
#[verifier::external_body]
pub struct ByteMap {
    inner: ic_stable_structures::BTreeMap<u64, Vec<u8>, VirtualMemory<DefaultMemoryImpl>>,
}

/// The value that the cell holds.
pub uninterp spec fn cell_value(c: IdCell) -> u64;

/// The key-value pairs that the map holds.
pub uninterp spec fn map_contents(m: ByteMap) -> Map<u64, Seq<u8>>;

/// Whether `pairs` lists `contents` in strictly ascending key order: each pair
/// is a pair of the map, and each key of the map occurs.
pub open spec fn lists_in_order(pairs: Seq<(u64, Vec<u8>)>, contents: Map<u64, Seq<u8>>) -> bool {
    &&& forall|i: int, j: int| 0 <= i < j < pairs.len() ==> pairs[i].0 < pairs[j].0
    &&& forall|i: int|
        0 <= i < pairs.len() ==> contents.contains_key(#[trigger] pairs[i].0) && contents[pairs[i].0]
            == pairs[i].1@
    &&& forall|k: u64| #[trigger]
        contents.contains_key(k) ==> exists|i: int| 0 <= i < pairs.len() && #[trigger] pairs[i].0 == k
}

/// Attaches the cell and the map to the default memory: `MemoryManager::init`
/// on `DefaultMemoryImpl::default()`, then `Cell::init` on its region 0 with
/// the default value 0 and `BTreeMap::init` on its region 1. What the two hold
/// afterwards depends on what the memory held, so nothing is claimed of it.
/// The crate aborts here if the memory holds a layout it does not support.
#[verifier::external_body]
pub(crate) fn attach() -> (r: (IdCell, ByteMap)) {
    let manager = MemoryManager::init(DefaultMemoryImpl::default());
    let cell = ic_stable_structures::Cell::init(manager.get(MemoryId::new(0)), 0u64);
    let map = ic_stable_structures::BTreeMap::init(manager.get(MemoryId::new(1)));
    (IdCell { inner: cell }, ByteMap { inner: map })
}

/// `Cell::get`: the value held.
#[verifier::external_body]
pub(crate) fn cell_get(c: &IdCell) -> (r: u64)
    ensures
        r == cell_value(*c),
{
    *c.inner.get()
}

/// `Cell::set`: the cell then holds `value`; the value held before is
/// returned. The crate aborts if the memory cannot grow to take the value.
#[verifier::external_body]
pub(crate) fn cell_set(c: &mut IdCell, value: u64) -> (r: u64)
    ensures
        r == cell_value(*old(c)),
        cell_value(*final(c)) == value,
{
    c.inner.set(value)
}

/// `BTreeMap::get`: the value under `key`, if the map holds the key.
#[verifier::external_body]
pub(crate) fn map_get(m: &ByteMap, key: u64) -> (r: Option<Vec<u8>>)
    ensures
        r is Some <==> map_contents(*m).contains_key(key),
        r is Some ==> r->Some_0@ == map_contents(*m)[key],
{
    m.inner.get(&key)
}

/// `BTreeMap::insert`: the map then holds `value` under `key` and is otherwise
/// as before; the value held under `key` before, if any, is returned. The
/// crate aborts if the memory cannot grow to take the pair.
#[verifier::external_body]
pub(crate) fn map_insert(m: &mut ByteMap, key: u64, value: Vec<u8>) -> (r: Option<Vec<u8>>)
    ensures
        map_contents(*final(m)) == map_contents(*old(m)).insert(key, value@),
        r is Some <==> map_contents(*old(m)).contains_key(key),
        r is Some ==> r->Some_0@ == map_contents(*old(m))[key],
{
    m.inner.insert(key, value)
}

/// `BTreeMap::remove`: the map then lacks `key` and is otherwise as before;
/// the value held under `key` before, if any, is returned.
#[verifier::external_body]
pub(crate) fn map_remove(m: &mut ByteMap, key: u64) -> (r: Option<Vec<u8>>)
    ensures
        map_contents(*final(m)) == map_contents(*old(m)).remove(key),
        r is Some <==> map_contents(*old(m)).contains_key(key),
        r is Some ==> r->Some_0@ == map_contents(*old(m))[key],
{
    m.inner.remove(&key)
}

/// `BTreeMap::iter`, each entry turned into its owned pair: all pairs of the
/// map, sorted by key.
#[verifier::external_body]
pub(crate) fn map_pairs(m: &ByteMap) -> (r: Vec<(u64, Vec<u8>)>)
    ensures
        lists_in_order(r@, map_contents(*m)),
{
    m.inner.iter().map(|entry| entry.into_pair()).collect()
}

} // verus!
