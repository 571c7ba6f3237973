//! The hardware page walk: resolve a virtual address by walking the
//! four-level table tree from a root frame.
//!
//! The tree lives in physical memory that only the boot-supplied linear
//! mapping can reach, so the walk here runs over a `TableArena`: the
//! set of tables that mapping makes visible, each identified by the
//! physical address its frame starts at. The caller resolves hardware
//! state (the page-table-base register) to a root frame and hands it
//! in; the walk itself is verified for every arena and every address.

use vstd::prelude::*;
use crate::addr::{PhysicalAddress, VirtualAddress, PHYSICAL_ADDRESS_LIMIT};
use crate::frame::{FrameError, PhysicalFrame, Size4KiB};
use crate::paging::{
    spec_entry_address, spec_entry_huge, spec_entry_present, spec_page_offset,
    spec_table_index, PageTable, PageTableIndex,
};

verus! {

/// What a page walk can come to, over plain values.
#[derive(Clone, Copy, Debug, PartialEq, Eq, Structural)]
pub enum WalkOutcome {
    /// The address resolves to this physical address.
    Mapped(u64),
    /// Some entry on the path has the present flag clear: a valid
    /// negative result, not an error.
    Unmapped,
    /// Some entry on the path maps a huge page, which this core leaves
    /// unhandled by design.
    HugePage,
    /// The walk reached a frame that the arena does not expose: the
    /// linear mapping handed to the walk was not complete.
    TableNotVisible,
}

/// The page walk as a mathematical function: from the tables that are
/// visible, the frame the current level starts at, the virtual address
/// and the number of levels still to walk.
pub open spec fn spec_walk(
    tables: Map<u64, Seq<u64>>,
    frame_base: u64,
    a: u64,
    levels: int,
) -> WalkOutcome
    decreases levels,
{
    if levels <= 0 {
        WalkOutcome::Mapped((frame_base + spec_page_offset(a)) as u64)
    } else if !tables.contains_key(frame_base) {
        WalkOutcome::TableNotVisible
    } else {
        let e = tables[frame_base][spec_table_index(a, levels) as int];
        if !spec_entry_present(e) {
            WalkOutcome::Unmapped
        } else if spec_entry_huge(e) {
            WalkOutcome::HugePage
        } else {
            spec_walk(tables, spec_entry_address(e), a, levels - 1)
        }
    }
}

/// A walk whose level-4 entry is not present returns unmapped without
/// reading any deeper table: the outcome is fixed whatever else the
/// arena holds or does not hold.
pub proof fn lemma_unmapped_at_root(tables: Map<u64, Seq<u64>>, root: u64, a: u64)
    requires
        tables.contains_key(root),
        !spec_entry_present(tables[root][spec_table_index(a, 4) as int]),
    ensures
        spec_walk(tables, root, a, 4) == WalkOutcome::Unmapped,
{
}

/// The keys of the sequence are pairwise distinct.
pub open spec fn distinct_bases(s: Seq<(u64, PageTable)>) -> bool {
    forall|i: int, j: int| 0 <= i < j < s.len() ==> s[i].0 != s[j].0
}

/// Every table is well-formed and no frame base repeats.
pub open spec fn tables_wf(s: Seq<(u64, PageTable)>) -> bool {
    distinct_bases(s) && forall|i: int| 0 <= i < s.len() ==> (#[trigger] s[i]).1.wf()
}

/// The tables as a map from frame base to entry values.
pub open spec fn arena_map(s: Seq<(u64, PageTable)>) -> Map<u64, Seq<u64>>
    decreases s.len(),
{
    if s.len() == 0 {
        Map::empty()
    } else {
        arena_map(s.drop_last()).insert(s.last().0, s.last().1@)
    }
}

proof fn lemma_arena_map_index(s: Seq<(u64, PageTable)>, i: int)
    requires
        distinct_bases(s),
        0 <= i < s.len(),
    ensures
        arena_map(s).contains_key(s[i].0),
        arena_map(s)[s[i].0] == s[i].1@,
    decreases s.len(),
{
    if i == s.len() - 1 {
    } else {
        assert(distinct_bases(s.drop_last()));
        lemma_arena_map_index(s.drop_last(), i);
        assert(s.drop_last()[i] == s[i]);
        assert(s.last().0 != s[i].0);
    }
}

proof fn lemma_arena_map_absent(s: Seq<(u64, PageTable)>, k: u64)
    requires
        forall|i: int| 0 <= i < s.len() ==> (#[trigger] s[i]).0 != k,
    ensures
        !arena_map(s).contains_key(k),
    decreases s.len(),
{
    if s.len() > 0 {
        lemma_arena_map_absent(s.drop_last(), k);
    }
}

/// The set of page tables that the boot-supplied linear mapping makes
/// visible, each keyed by the physical address its frame starts at.
#[derive(Debug)]
pub struct TableArena {
    tables: Vec<(u64, PageTable)>,
}

impl View for TableArena {
    type V = Map<u64, Seq<u64>>;

    closed spec fn view(&self) -> Map<u64, Seq<u64>> {
        arena_map(self.tables@)
    }
}

impl TableArena {
    /// No frame base repeats and every table has its 512 entries.
    pub closed spec fn wf(self) -> bool {
        tables_wf(self.tables@)
    }

    /// An arena with no visible table.
    pub fn new() -> (r: Self)
        ensures
            r.wf(),
            r@ == Map::<u64, Seq<u64>>::empty(),
    {
        TableArena { tables: Vec::new() }
    }

    /// Make `table` visible at frame base `frame_base`.
    pub fn insert_table(&mut self, frame_base: u64, table: PageTable)
        requires
            old(self).wf(),
            table.wf(),
            !old(self)@.contains_key(frame_base),
        ensures
            final(self).wf(),
            final(self)@ == old(self)@.insert(frame_base, table@),
    {
        proof {
            assert forall|i: int| 0 <= i < self.tables@.len() implies (#[trigger] self.tables@[
                i]).0 != frame_base by {
                if self.tables@[i].0 == frame_base {
                    lemma_arena_map_index(self.tables@, i);
                }
            }
        }
        let ghost t0 = self.tables@;
        self.tables.push((frame_base, table));
        proof {
            assert(self.tables@.drop_last() =~= t0);
            assert(self.tables@.last() == (frame_base, table));
            assert(tables_wf(self.tables@));
        }
    }

    /// The table whose frame starts at `frame_base`, if it is visible.
    pub fn table_for(&self, frame_base: u64) -> (r: Option<&PageTable>)
        requires
            self.wf(),
        ensures
            match r {
                Some(t) => self@.contains_key(frame_base) && t@ == self@[frame_base]
                    && t.wf(),
                None => !self@.contains_key(frame_base),
            },
    {
        let n = self.tables.len();
        let mut i: usize = 0;
        while i < n
            invariant
                self.wf(),
                n == self.tables@.len(),
                i <= n,
                forall|j: int| 0 <= j < i ==> (#[trigger] self.tables@[j]).0 != frame_base,
            decreases n - i,
        {
            if self.tables[i].0 == frame_base {
                proof {
                    lemma_arena_map_index(self.tables@, i as int);
                }
                return Some(&self.tables[i].1);
            }
            i = i + 1;
        }
        proof {
            lemma_arena_map_absent(self.tables@, frame_base);
        }
        None
    }
}

/// Split a page-table-base register value into the root table's frame
/// and the low control bits, which this core ignores: the high bits
/// select the physical base of the root table.
pub fn root_from_register(value: u64) -> (r: (PhysicalFrame<Size4KiB>, u16))
    ensures
        r.0@ == value & 0x000F_FFFF_FFFF_F000,
        r.0.wf(),
        r.1 == value & 0xFFF,
{
    proof {
        assert(value & 0x000F_FFFF_FFFF_F000 < 0x0010_0000_0000_0000 && (value
            & 0x000F_FFFF_FFFF_F000) % 4096 == 0 && (value & 0xFFF) < 4096 && ((value
            & 0xFFF) as u16) == value & 0xFFF) by (bit_vector);
        <Size4KiB as crate::frame::PageSize>::size_properties();
        crate::addr::lemma_align_down(value & 0x000F_FFFF_FFFF_F000, 4096);
    }
    let address = PhysicalAddress::new(value & 0x000F_FFFF_FFFF_F000);
    (PhysicalFrame::containing_address(address), (value & 0xFFF) as u16)
}

/// What the walk reports back to the caller.
#[derive(Debug, PartialEq, Eq)]
pub enum Translation {
    /// The physical address the virtual address resolves to.
    Mapped(PhysicalAddress),
    /// Nothing is mapped at the address: a valid negative result.
    Unmapped,
    /// The path crosses a huge-page mapping, which this core does not
    /// support; the caller must treat this as fatal.
    HugePage,
    /// The walk reached a table outside the arena: the linear mapping
    /// handed in was not complete.
    TableNotVisible,
}

/// The executable result agrees with the mathematical walk.
pub open spec fn translation_matches(r: Translation, w: WalkOutcome) -> bool {
    match w {
        WalkOutcome::Mapped(p) => r matches Translation::Mapped(pa) && pa@ == p,
        WalkOutcome::Unmapped => r == Translation::Unmapped,
        WalkOutcome::HugePage => r == Translation::HugePage,
        WalkOutcome::TableNotVisible => r == Translation::TableNotVisible,
    }
}

fn index_for_level(address: VirtualAddress, level: u64) -> (r: PageTableIndex)
    requires
        1 <= level <= 4,
    ensures
        r@ == spec_table_index(address@, level as int),
        r@ < 512,
{
    if level == 1 {
        address.p1_index()
    } else if level == 2 {
        address.p2_index()
    } else if level == 3 {
        address.p3_index()
    } else {
        address.p4_index()
    }
}

/// Translate `address` by walking the four table levels from `root`,
/// the frame the page-table-base register points at. Tables are read
/// through `arena`; an entry with the present flag clear at any level
/// makes the result unmapped, and on success the result is the level-1
/// frame's base plus the page offset of `address`.
pub fn translate_address(
    arena: &TableArena,
    root: &PhysicalFrame<Size4KiB>,
    address: VirtualAddress,
) -> (r: Translation)
    requires
        arena.wf(),
        root.wf(),
    ensures
        translation_matches(r, spec_walk(arena@, root@, address@, 4)),
        r matches Translation::Mapped(pa) ==> pa.wf(),
{
    let mut frame_base: u64 = root.start_address().as_raw();
    let mut level: u64 = 4;
    while level > 0
        invariant
            arena.wf(),
            level <= 4,
            frame_base < PHYSICAL_ADDRESS_LIMIT,
            frame_base % 4096 == 0,
            spec_walk(arena@, root@, address@, 4) == spec_walk(
                arena@,
                frame_base,
                address@,
                level as int,
            ),
        decreases level,
    {
        let index = index_for_level(address, level);
        let table = match arena.table_for(frame_base) {
            Some(t) => t,
            None => {
                return Translation::TableNotVisible;
            },
        };
        let entry = table.entry_at(index.as_usize());
        match entry.frame() {
            Err(FrameError::FrameNotPresent) => {
                return Translation::Unmapped;
            },
            Err(FrameError::HugePage) => {
                return Translation::HugePage;
            },
            Ok(next) => {
                frame_base = next.start_address().as_raw();
            },
        }
        level = level - 1;
    }
    let offset = address.page_offset();
    proof {
        let fb = frame_base;
        assert(fb % 4096 == 0 && fb < 0x0010_0000_0000_0000 ==> fb + 4095
            < 0x0010_0000_0000_0000) by (bit_vector);
    }
    Translation::Mapped(PhysicalAddress::new(frame_base + offset.as_u64()))
}

} // verus!
