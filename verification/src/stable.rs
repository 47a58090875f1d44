//! The stable-memory structures the ledger persists itself in: one memory
//! divided into regions, with a byte-valued B-tree map or a counter cell in
//! each region. Nothing in this file is proved: every contract here states
//! what the `ic-stable-structures` source shows of the call it wraps. A
//! call that panics where the memory has no room left to grow is taken to
//! have room.

use crate::layout::{
    cell_known, holds_cell, holds_manager, holds_map, manager_known, map_known,
};
use ic_stable_structures::memory_manager::{MemoryId, MemoryManager, VirtualMemory};
use ic_stable_structures::{Cell, DefaultMemoryImpl, Memory, StableBTreeMap};
use vstd::prelude::*;

verus! {

/// `core::cell::RefCell`, which the default memory is made of on targets
/// other than wasm32. It is only passed through.
#[verifier::external_type_specification]
#[verifier::external_body]
#[verifier::reject_recursive_types(T)]
pub struct ExRefCell<T: ?Sized>(core::cell::RefCell<T>);

/// A `MemoryManager` over the default memory: up to 255 independent
/// regions carved out of one memory.
#[verifier::external_body]
pub struct Regions {
    inner: MemoryManager<DefaultMemoryImpl>,
}

/// A `VirtualMemory`: the handle to one region.
#[verifier::external_body]
pub struct Region {
    inner: VirtualMemory<DefaultMemoryImpl>,
}

/// A `StableBTreeMap` from `u64` keys to byte strings that lives in one
/// region.
#[verifier::external_body]
pub struct RawTable {
    inner: StableBTreeMap<u64, Vec<u8>, VirtualMemory<DefaultMemoryImpl>>,
}

/// A stable `Cell` that holds one `u64` and lives in one region.
#[verifier::external_body]
pub struct Counter {
    inner: Cell<u64, VirtualMemory<DefaultMemoryImpl>>,
}

/// The bytes that the memory holds.
pub uninterp spec fn memory_bytes(m: DefaultMemoryImpl) -> Seq<u8>;

/// Whether the bytes that the memory holds behind a manager's header are
/// what a manager and the structures in its regions left there: the record
/// of the regions is consistent, and a map behind a header that can be
/// loaded is complete and keyed by eight bytes. It is a property of
/// `memory_bytes(m)`, and none that can be tested without opening the
/// structures.
pub uninterp spec fn memory_intact(m: DefaultMemoryImpl) -> bool;

/// Whether every region can be read, written and grown, and a map behind a
/// header that can be loaded is complete and keyed by eight bytes.
pub uninterp spec fn regions_intact(r: Regions) -> bool;

/// The bytes that the region holds.
pub uninterp spec fn region_bytes(r: Region) -> Seq<u8>;

/// Whether the region can be read, written and grown, and a map behind a
/// header in it that can be loaded is complete and keyed by eight bytes.
pub uninterp spec fn region_intact(r: Region) -> bool;

/// The key-value pairs that the map holds.
pub uninterp spec fn table_entries(t: RawTable) -> Map<u64, Seq<u8>>;

/// The integer that the cell holds.
pub uninterp spec fn counter_value(c: Counter) -> u64;

/// `Memory::size` of the default memory: its whole pages.
#[verifier::external_body]
pub(crate) fn memory_pages(m: &DefaultMemoryImpl) -> (r: u64)
    ensures
        r == memory_bytes(*m).len() / 65536,
{
    m.size()
}

/// `Memory::read` of the default memory: the `len` bytes from `offset` on.
/// It panics past the end.
#[verifier::external_body]
pub(crate) fn memory_read(m: &DefaultMemoryImpl, offset: u64, len: usize) -> (r: Vec<u8>)
    requires
        offset + len <= memory_bytes(*m).len(),
    ensures
        r@ == memory_bytes(*m).subrange(offset as int, offset + len),
{
    let mut out = vec![0u8; len];
    m.read(offset, &mut out);
    out
}

/// `Memory::write` of the default memory: puts `src` in place of the bytes
/// from `offset` on. It panics past the end.
#[verifier::external_body]
pub(crate) fn memory_write(m: &mut DefaultMemoryImpl, offset: u64, src: &Vec<u8>)
    requires
        offset + src@.len() <= memory_bytes(*old(m)).len(),
    ensures
        memory_bytes(*final(m)) == memory_bytes(*old(m)).subrange(0, offset as int) + src@
            + memory_bytes(*old(m)).subrange(
            offset + src@.len(),
            memory_bytes(*old(m)).len() as int,
        ),
{
    m.write(offset, src);
}

/// `MemoryManager::init`: divides `memory` into regions. A memory without
/// whole pages, or one that does not start with the manager's mark, is
/// divided anew. One that starts with the mark is loaded, which panics
/// unless its version is 1; what its regions can be used for is then as
/// good as what the memory held.
#[verifier::external_body]
pub(crate) fn partition(memory: DefaultMemoryImpl) -> (r: Regions)
    requires
        !holds_manager(memory_bytes(memory)) || manager_known(memory_bytes(memory)),
    ensures
        !holds_manager(memory_bytes(memory)) || memory_intact(memory) ==> regions_intact(r),
{
    Regions { inner: MemoryManager::init(memory) }
}

/// `MemoryManager::get` of `MemoryId::new(id)`: the handle to the region
/// `id`. `MemoryId::new` refuses 255. Two handles to one region share
/// their bytes: [`crate::layout::Partition`] hands each out once.
#[verifier::external_body]
pub(crate) fn region(regions: &Regions, id: u8) -> (r: Region)
    requires
        id != 255,
    ensures
        region_intact(r) == regions_intact(*regions),
{
    Region { inner: regions.inner.get(MemoryId::new(id)) }
}

/// `Memory::size` of a region: its pages.
#[verifier::external_body]
pub(crate) fn region_pages(r: &Region) -> (n: u64)
    ensures
        region_bytes(*r).len() == n * 65536,
{
    r.inner.size()
}

/// `Memory::read` of a region: the `len` bytes from `offset` on. It panics
/// past the end.
#[verifier::external_body]
pub(crate) fn region_read(r: &Region, offset: u64, len: usize) -> (out: Vec<u8>)
    requires
        region_intact(*r),
        offset + len <= region_bytes(*r).len(),
    ensures
        out@ == region_bytes(*r).subrange(offset as int, offset + len),
{
    let mut out = vec![0u8; len];
    r.inner.read(offset, &mut out);
    out
}

/// `StableBTreeMap::new`: an empty map in `region`, whatever the region
/// held.
#[verifier::external_body]
pub(crate) fn table_new(region: Region) -> (r: RawTable)
    requires
        region_intact(region),
    ensures
        forall|k: u64| !table_entries(r).contains_key(k),
{
    RawTable { inner: StableBTreeMap::new(region.inner) }
}

/// `StableBTreeMap::init`: the map that `region` holds, or an empty one
/// where it has no page or does not start with a map's mark. Loading
/// panics on a version that it does not know; this asks for version 2,
/// the one that maps of byte strings are written in. Nothing is claimed
/// of the entries.
#[verifier::external_body]
pub(crate) fn table_init(region: Region) -> (r: RawTable)
    requires
        region_intact(region),
        !holds_map(region_bytes(region)) || map_known(region_bytes(region)),
{
    RawTable { inner: StableBTreeMap::init(region.inner) }
}

/// `StableBTreeMap::get`: the value stored under `key`, if there is one.
#[verifier::external_body]
pub(crate) fn table_get(t: &RawTable, key: u64) -> (r: Option<Vec<u8>>)
    ensures
        r is Some <==> table_entries(*t).contains_key(key),
        r is Some ==> r->0@ == table_entries(*t)[key],
{
    t.inner.get(&key)
}

/// `StableBTreeMap::insert`: stores `value` under `key`, in place of what
/// was stored there. The map writes a value's length in 32 bits, hence the
/// bound.
#[verifier::external_body]
pub(crate) fn table_insert(t: &mut RawTable, key: u64, value: Vec<u8>)
    requires
        value@.len() <= u32::MAX,
    ensures
        table_entries(*final(t)) == table_entries(*old(t)).insert(key, value@),
{
    t.inner.insert(key, value);
}

/// `StableBTreeMap::iter`, collected: every entry of the map, once, in
/// ascending order of the keys.
#[verifier::external_body]
pub(crate) fn table_scan(t: &RawTable) -> (r: Vec<(u64, Vec<u8>)>)
    ensures
        forall|i: int|
            0 <= i < r@.len() ==> table_entries(*t).contains_key(#[trigger] r@[i].0)
                && table_entries(*t)[r@[i].0] == r@[i].1@,
        forall|i: int, j: int| 0 <= i < j < r@.len() ==> r@[i].0 < r@[j].0,
        forall|k: u64|
            table_entries(*t).contains_key(k) ==> exists|i: int|
                0 <= i < r@.len() && #[trigger] r@[i].0 == k,
{
    t.inner.iter().map(|entry| entry.into_pair()).collect()
}

/// `Cell::new`: a cell in `region` that holds `value`, whatever the region
/// held.
#[verifier::external_body]
pub(crate) fn counter_new(region: Region, value: u64) -> (r: Counter)
    requires
        region_intact(region),
    ensures
        counter_value(r) == value,
{
    Counter { inner: Cell::new(region.inner, value) }
}

/// `Cell::init`: the cell that `region` holds, or one that holds `default`
/// where the region has no page or does not start with a cell's mark.
/// Loading panics unless the version is 1 and the value has the eight
/// bytes of a `u64`. Nothing is claimed of the value.
#[verifier::external_body]
pub(crate) fn counter_init(region: Region, default: u64) -> (r: Counter)
    requires
        region_intact(region),
        !holds_cell(region_bytes(region)) || cell_known(region_bytes(region)),
{
    Counter { inner: Cell::init(region.inner, default) }
}

/// `Cell::get`: the integer that the cell holds.
#[verifier::external_body]
pub(crate) fn counter_get(c: &Counter) -> (r: u64)
    ensures
        r == counter_value(*c),
{
    *c.inner.get()
}

/// `Cell::set`: makes the cell hold `value` and returns what it held.
#[verifier::external_body]
pub(crate) fn counter_set(c: &mut Counter, value: u64) -> (r: u64)
    ensures
        counter_value(*final(c)) == value,
        r == counter_value(*old(c)),
{
    c.inner.set(value)
}

} // verus!
