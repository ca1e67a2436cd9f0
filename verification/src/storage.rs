//! The durable storage layer: a persistent ordered table of encoded records
//! and a persistent counter cell, held in `ic_stable_structures` collections
//! over two disjoint partitions of one backing memory.
//!
//! Both structures are opaque to verification.  What the table holds is
//! named by [`table_bytes`], what the cell holds by [`counter_value`]; the
//! methods' contracts state, over those names, what the outside crate's
//! source shows.  [`open_storage`] loads whatever the backing memory
//! persisted — its contents are unknown here and are re-validated by the
//! service — while [`fresh_storage`] starts empty, discarding anything the
//! partitions held.  That committed writes survive a process restart is the
//! outside crate's own guarantee over its stable-memory backing, and is not
//! restated here.
//!
//! On the canister target the backing memory is the process's single stable
//! memory, so the pair of structures is a process-wide singleton: build it
//! once per process, as the service does.  A second pair would alias the
//! same partitions, and what the names say of one pair's value would not
//! survive writes through the other.

use vstd::prelude::*;

use ic_stable_structures::memory_manager::{MemoryId, MemoryManager, VirtualMemory};
use ic_stable_structures::{BTreeMap, Cell, DefaultMemoryImpl};

use crate::codec::MAX_VALUE_SIZE;

verus! {

/// A persistent ordered mapping from 64-bit identifiers to byte strings,
/// backed by an `ic_stable_structures::BTreeMap` on its own partition of
/// the backing memory.
#[verifier::external_body]
pub struct Table {
    map: BTreeMap<u64, Vec<u8>, VirtualMemory<DefaultMemoryImpl>>,
}

/// The mapping the table currently holds: each stored id to its byte string.
pub uninterp spec fn table_bytes(t: Table) -> Map<u64, Seq<u8>>;

/// A persistent cell holding the identifier counter, backed by an
/// `ic_stable_structures::Cell` on its own partition of the backing memory.
#[verifier::external_body]
pub struct Counter {
    cell: Cell<u64, VirtualMemory<DefaultMemoryImpl>>,
}

/// The value the counter cell currently holds.
pub uninterp spec fn counter_value(c: Counter) -> u64;

/// Builds the table and the counter over two disjoint partitions of a fresh
/// view of the backing memory, discarding whatever those partitions held.
///
/// Relies on `ic_stable_structures::memory_manager::MemoryManager`: the
/// memories it hands out for distinct ids never overlap; and on
/// `BTreeMap::new` and `Cell::new`, which write a fresh empty structure
/// resp. the given value over their memory.
#[verifier::external_body]
pub(crate) fn fresh_storage() -> (r: (Table, Counter))
    ensures
        forall|k: u64| !table_bytes(r.0).dom().contains(k),
        counter_value(r.1) == 0,
{
    let manager = MemoryManager::init(DefaultMemoryImpl::default());
    let table = Table { map: BTreeMap::new(manager.get(MemoryId::new(0))) };
    let counter = Counter { cell: Cell::new(manager.get(MemoryId::new(1)), 0) };
    (table, counter)
}

/// Loads the table and the counter from two disjoint partitions of the
/// backing memory: whatever state was persisted there, or an empty table
/// and a zero counter where the memory is untouched.  What was loaded is
/// unknown here; the service validates it before relying on it.
///
/// Relies on `ic_stable_structures::memory_manager::MemoryManager::init`,
/// which loads an existing partition layout, and on `BTreeMap::init` and
/// `Cell::init`, which load an existing structure and create an empty one
/// only where none is present.  `Cell::init` does not return on a stored
/// layout newer than the crate understands, as the original store's decoder
/// did not.
#[verifier::external_body]
pub(crate) fn open_storage() -> (r: (Table, Counter))
{
    let manager = MemoryManager::init(DefaultMemoryImpl::default());
    let table = Table { map: BTreeMap::init(manager.get(MemoryId::new(0))) };
    let counter = Counter { cell: Cell::init(manager.get(MemoryId::new(1)), 0) };
    (table, counter)
}

impl Table {
    /// Relies on `ic_stable_structures::BTreeMap::get`: returns the value
    /// stored under the key, if any.
    #[verifier::external_body]
    pub fn get(&self, key: u64) -> (r: Option<Vec<u8>>)
        ensures
            match r {
                Some(v) => table_bytes(*self).contains_pair(key, v@),
                None => !table_bytes(*self).dom().contains(key),
            },
    {
        self.map.get(&key)
    }

    /// Relies on `ic_stable_structures::BTreeMap::contains_key`: tells
    /// whether the key is stored.
    #[verifier::external_body]
    pub fn contains_key(&self, key: u64) -> (r: bool)
        ensures
            r == table_bytes(*self).dom().contains(key),
    {
        self.map.contains_key(&key)
    }

    /// Relies on `ic_stable_structures::BTreeMap::insert`: stores the value
    /// under the key, replacing and returning the previous value if one was
    /// there.  The table accepts no value beyond the record size bound.
    #[verifier::external_body]
    pub fn insert(&mut self, key: u64, value: Vec<u8>) -> (prev: Option<Vec<u8>>)
        requires
            value@.len() <= MAX_VALUE_SIZE,
        ensures
            table_bytes(*final(self)) == table_bytes(*old(self)).insert(key, value@),
            match prev {
                Some(v) => table_bytes(*old(self)).contains_pair(key, v@),
                None => !table_bytes(*old(self)).dom().contains(key),
            },
    {
        self.map.insert(key, value)
    }

    /// Relies on `ic_stable_structures::BTreeMap::remove`: takes the value
    /// stored under the key out of the map and returns it, if it was there.
    #[verifier::external_body]
    pub fn remove(&mut self, key: u64) -> (prev: Option<Vec<u8>>)
        ensures
            table_bytes(*final(self)) == table_bytes(*old(self)).remove(key),
            match prev {
                Some(v) => table_bytes(*old(self)).contains_pair(key, v@),
                None => !table_bytes(*old(self)).dom().contains(key),
            },
    {
        self.map.remove(&key)
    }

    /// Relies on `ic_stable_structures::BTreeMap::iter`: yields every stored
    /// entry exactly once, in ascending key order.
    #[verifier::external_body]
    pub fn entries(&self) -> (r: Vec<(u64, Vec<u8>)>)
        ensures
            forall|i: int, j: int|
                0 <= i < j < r@.len() ==> (#[trigger] r@[i]).0 < (#[trigger] r@[j]).0,
            forall|i: int|
                0 <= i < r@.len() ==> table_bytes(*self).contains_pair(
                    (#[trigger] r@[i]).0,
                    r@[i].1@,
                ),
            forall|k: u64|
                #[trigger] table_bytes(*self).dom().contains(k) ==> exists|i: int|
                    0 <= i < r@.len() && (#[trigger] r@[i]).0 == k,
    {
        let mut out: Vec<(u64, Vec<u8>)> = Vec::new();
        for e in self.map.iter() {
            out.push(e.into_pair());
        }
        out
    }
}

impl Counter {
    /// Relies on `ic_stable_structures::Cell::get`: returns the held value.
    #[verifier::external_body]
    pub fn get(&self) -> (r: u64)
        ensures
            r == counter_value(*self),
    {
        *self.cell.get()
    }

    /// Relies on `ic_stable_structures::Cell::set`: replaces the held value
    /// and persists it.  An eight-byte value always fits the cell's memory,
    /// so the write cannot fail.
    #[verifier::external_body]
    pub fn set(&mut self, v: u64)
        ensures
            counter_value(*final(self)) == v,
    {
        let _ = self.cell.set(v);
    }
}

} // verus!
