//! What the ledger looks at before it opens anything: the headers that
//! `ic-stable-structures` writes at the start of a memory and of a region,
//! and which regions of a memory have been handed out.

use crate::stable::{
    memory_bytes, memory_intact, memory_pages, memory_read, memory_write, partition, region,
    region_bytes, region_intact, region_pages, region_read, regions_intact, Region, Regions,
};
use ic_stable_structures::DefaultMemoryImpl;
use vstd::prelude::*;

verus! {

/// The bytes of one page of memory.
pub const PAGE_BYTES: u64 = 65536;

/// The version of the manager's layout that can be loaded.
pub const MANAGER_VERSION: u8 = 1;

/// The version of a map's layout that can be loaded.
pub const MAP_VERSION: u8 = 2;

/// The version of a cell's layout that can be loaded.
pub const CELL_VERSION: u8 = 1;

/// The bytes of the integer that a counter cell holds.
pub const COUNTER_BYTES: u8 = 8;

/// Whether `b` has a page and starts with the bytes `m0`, `m1`, `m2`: the
/// mark by which a structure finds itself again.
pub open spec fn marked(b: Seq<u8>, m0: u8, m1: u8, m2: u8) -> bool {
    b.len() >= PAGE_BYTES && b[0] == m0 && b[1] == m1 && b[2] == m2
}

/// Whether `b` starts as a memory divided by a manager does ("MGR").
pub open spec fn holds_manager(b: Seq<u8>) -> bool {
    marked(b, 0x4d, 0x47, 0x52)
}

/// Whether `b` starts as a divided memory of the version that can be
/// loaded.
pub open spec fn manager_known(b: Seq<u8>) -> bool {
    holds_manager(b) && b[3] == MANAGER_VERSION
}

/// Whether `b` starts as a region with a map does ("BTR").
pub open spec fn holds_map(b: Seq<u8>) -> bool {
    marked(b, 0x42, 0x54, 0x52)
}

/// Whether `b` starts as a map of the version that can be loaded.
pub open spec fn map_known(b: Seq<u8>) -> bool {
    holds_map(b) && b[3] == MAP_VERSION
}

/// Whether `b` starts as a region with a cell does ("SCL").
pub open spec fn holds_cell(b: Seq<u8>) -> bool {
    marked(b, 0x53, 0x43, 0x4c)
}

/// Whether `b` starts as a cell of the version that can be loaded, with a
/// value of eight bytes. The length is written in four bytes, least
/// significant first.
pub open spec fn cell_known(b: Seq<u8>) -> bool {
    holds_cell(b) && b[3] == CELL_VERSION && b[4] == COUNTER_BYTES && b[5] == 0 && b[6] == 0
        && b[7] == 0
}

/// What the start of a memory or region says of the structure in it.
#[derive(Clone, Copy, Debug, PartialEq, Eq, Structural)]
pub enum Header {
    /// None of the kind looked for: one would be made anew.
    Absent,
    /// One that can be loaded.
    Known,
    /// One of the kind looked for that cannot be loaded.
    Foreign,
}

/// Whether the eight bytes `head` start with the mark `m0`, `m1`, `m2`.
fn has_mark(head: &Vec<u8>, m0: u8, m1: u8, m2: u8) -> (r: bool)
    requires
        head@.len() == 8,
    ensures
        r == (head@[0] == m0 && head@[1] == m1 && head@[2] == m2),
{
    head[0] == m0 && head[1] == m1 && head[2] == m2
}

/// What `memory` says of a manager in it.
pub fn manager_header(memory: &DefaultMemoryImpl) -> (h: Header)
    ensures
        h is Absent <==> !holds_manager(memory_bytes(*memory)),
        h is Known <==> manager_known(memory_bytes(*memory)),
{
    if memory_pages(memory) == 0 {
        return Header::Absent;
    }
    let head = memory_read(memory, 0, 8);
    if !has_mark(&head, 0x4d, 0x47, 0x52) {
        Header::Absent
    } else if head[3] == MANAGER_VERSION {
        Header::Known
    } else {
        Header::Foreign
    }
}

/// Makes `memory` start as no divided memory does, so that it is divided
/// anew whatever it held: where it starts with the manager's mark, its
/// first byte becomes zero. Nothing else changes.
pub fn forget_manager(memory: &mut DefaultMemoryImpl)
    ensures
        !holds_manager(memory_bytes(*final(memory))),
        memory_bytes(*final(memory)) == if holds_manager(memory_bytes(*old(memory))) {
            memory_bytes(*old(memory)).update(0, 0u8)
        } else {
            memory_bytes(*old(memory))
        },
{
    match manager_header(memory) {
        Header::Absent => {},
        _ => {
            let mut blank: Vec<u8> = Vec::new();
            blank.push(0u8);
            memory_write(memory, 0, &blank);
            assert(memory_bytes(*memory) =~= memory_bytes(*old(memory)).update(0, 0u8));
        },
    }
}

/// What `region` says of a map in it.
pub(crate) fn map_header(region: &Region) -> (h: Header)
    requires
        region_intact(*region),
    ensures
        h is Absent <==> !holds_map(region_bytes(*region)),
        h is Known <==> map_known(region_bytes(*region)),
{
    if region_pages(region) == 0 {
        return Header::Absent;
    }
    let head = region_read(region, 0, 8);
    if !has_mark(&head, 0x42, 0x54, 0x52) {
        Header::Absent
    } else if head[3] == MAP_VERSION {
        Header::Known
    } else {
        Header::Foreign
    }
}

/// What `region` says of a counter cell in it.
pub(crate) fn cell_header(region: &Region) -> (h: Header)
    requires
        region_intact(*region),
    ensures
        h is Absent <==> !holds_cell(region_bytes(*region)),
        h is Known <==> cell_known(region_bytes(*region)),
{
    if region_pages(region) == 0 {
        return Header::Absent;
    }
    let head = region_read(region, 0, 8);
    if !has_mark(&head, 0x53, 0x43, 0x4c) {
        Header::Absent
    } else if head[3] == CELL_VERSION && head[4] == COUNTER_BYTES && head[5] == 0 && head[6] == 0
        && head[7] == 0 {
        Header::Known
    } else {
        Header::Foreign
    }
}

/// A divided memory with a record of the regions that were handed out, so
/// that no region is opened twice.
pub struct Partition {
    regions: Regions,
    taken: Ghost<Set<u8>>,
}

impl Partition {
    /// The regions that were handed out.
    pub closed spec fn taken(&self) -> Set<u8> {
        self.taken@
    }

    /// Whether the regions can be opened.
    pub closed spec fn intact(&self) -> bool {
        regions_intact(self.regions)
    }

    /// Divides `memory`, of which no region is handed out yet.
    pub(crate) fn divide(memory: DefaultMemoryImpl) -> (p: Partition)
        requires
            !holds_manager(memory_bytes(memory)) || manager_known(memory_bytes(memory)),
        ensures
            p.taken() == Set::<u8>::empty(),
            !holds_manager(memory_bytes(memory)) || memory_intact(memory) ==> p.intact(),
    {
        Partition { regions: partition(memory), taken: Ghost(Set::empty()) }
    }

    /// Hands out the region `id`, once.
    pub(crate) fn open(&mut self, id: u8) -> (r: Region)
        requires
            id != 255,
            !old(self).taken().contains(id),
        ensures
            final(self).taken() == old(self).taken().insert(id),
            final(self).intact() == old(self).intact(),
            region_intact(r) == old(self).intact(),
    {
        proof {
            self.taken@ = self.taken@.insert(id);
        }
        region(&self.regions, id)
    }
}

} // verus!
