//! The CPU page table: 512-entry nodes and their 64-bit entry encoding.
//!
//! Bits 12 to 51 of an entry hold a frame-aligned physical address,
//! valid only while the present flag is set; bits 0 to 8 and the top
//! bit hold the flags.

use vstd::prelude::*;
use crate::addr::{PhysicalAddress, VirtualAddress, PHYSICAL_ADDRESS_LIMIT};
use crate::frame::{FrameError, PhysicalFrame, Size4KiB};

verus! {

/// Count of entries in a page table.
pub const ENTRY_COUNT: usize = 512;

/// The bits of an entry that hold the mapped physical address.
pub const PAGE_TABLE_ADDRESS_MASK: u64 = 0x000F_FFFF_FFFF_F000;

/// The bits of an entry that hold flags: bits 0 to 8 and bit 63.
pub const PAGE_TABLE_FLAGS_MASK: u64 = 0x8000_0000_0000_01FF;

pub const FLAG_PRESENT: u64 = 0x1;
pub const FLAG_WRITABLE: u64 = 0x2;
pub const FLAG_USER_ACCESSIBLE: u64 = 0x4;
pub const FLAG_WRITE_THROUGH_CACHING: u64 = 0x8;
pub const FLAG_DISABLE_CACHE: u64 = 0x10;
pub const FLAG_ACCESSED: u64 = 0x20;
pub const FLAG_DIRTY: u64 = 0x40;
pub const FLAG_HUGE_PAGE: u64 = 0x80;
pub const FLAG_GLOBAL: u64 = 0x100;
pub const FLAG_NO_EXECUTE: u64 = 0x8000_0000_0000_0000;

/// The entry maps something.
pub open spec fn spec_entry_present(e: u64) -> bool {
    e & FLAG_PRESENT != 0
}

/// The entry maps a huge page instead of a next-level table.
pub open spec fn spec_entry_huge(e: u64) -> bool {
    e & FLAG_HUGE_PAGE != 0
}

/// The physical address stored in the entry.
pub open spec fn spec_entry_address(e: u64) -> u64 {
    e & PAGE_TABLE_ADDRESS_MASK
}

/// The set of flags a page-table entry can carry.
#[derive(Clone, Copy, Debug, PartialEq, Eq, Structural, PartialOrd, Ord, Hash)]
pub struct PageTableFlags {
    bits: u64,
}

impl View for PageTableFlags {
    type V = u64;

    closed spec fn view(&self) -> u64 {
        self.bits
    }
}

impl PageTableFlags {
    pub fn empty() -> (r: Self)
        ensures
            r@ == 0,
    {
        PageTableFlags { bits: 0 }
    }

    pub fn present() -> (r: Self)
        ensures
            r@ == FLAG_PRESENT,
    {
        PageTableFlags { bits: FLAG_PRESENT }
    }

    pub fn writable() -> (r: Self)
        ensures
            r@ == FLAG_WRITABLE,
    {
        PageTableFlags { bits: FLAG_WRITABLE }
    }

    pub fn user_accessible() -> (r: Self)
        ensures
            r@ == FLAG_USER_ACCESSIBLE,
    {
        PageTableFlags { bits: FLAG_USER_ACCESSIBLE }
    }

    pub fn write_through_caching() -> (r: Self)
        ensures
            r@ == FLAG_WRITE_THROUGH_CACHING,
    {
        PageTableFlags { bits: FLAG_WRITE_THROUGH_CACHING }
    }

    pub fn disable_cache() -> (r: Self)
        ensures
            r@ == FLAG_DISABLE_CACHE,
    {
        PageTableFlags { bits: FLAG_DISABLE_CACHE }
    }

    pub fn accessed() -> (r: Self)
        ensures
            r@ == FLAG_ACCESSED,
    {
        PageTableFlags { bits: FLAG_ACCESSED }
    }

    pub fn dirty() -> (r: Self)
        ensures
            r@ == FLAG_DIRTY,
    {
        PageTableFlags { bits: FLAG_DIRTY }
    }

    pub fn huge_page() -> (r: Self)
        ensures
            r@ == FLAG_HUGE_PAGE,
    {
        PageTableFlags { bits: FLAG_HUGE_PAGE }
    }

    pub fn global() -> (r: Self)
        ensures
            r@ == FLAG_GLOBAL,
    {
        PageTableFlags { bits: FLAG_GLOBAL }
    }

    pub fn no_execute() -> (r: Self)
        ensures
            r@ == FLAG_NO_EXECUTE,
    {
        PageTableFlags { bits: FLAG_NO_EXECUTE }
    }

    /// Keep only the bits that are flag bits.
    pub fn from_bits_truncate(bits: u64) -> (r: Self)
        ensures
            r@ == bits & PAGE_TABLE_FLAGS_MASK,
    {
        PageTableFlags { bits: bits & PAGE_TABLE_FLAGS_MASK }
    }

    pub fn bits(self) -> (r: u64)
        ensures
            r == self@,
    {
        self.bits
    }

    /// All flags of `other` are also set in `self`.
    pub fn contains(self, other: Self) -> (r: bool)
        ensures
            r == (self@ & other@ == other@),
    {
        self.bits & other.bits == other.bits
    }

    /// The flags set in either operand.
    pub fn union(self, other: Self) -> (r: Self)
        ensures
            r@ == self@ | other@,
    {
        PageTableFlags { bits: self.bits | other.bits }
    }
}

/// A 9-bit index into one page table.
#[derive(Clone, Copy, Debug, PartialEq, Eq, Structural, PartialOrd, Ord, Hash)]
pub struct PageTableIndex {
    index: u16,
}

impl View for PageTableIndex {
    type V = u16;

    closed spec fn view(&self) -> u16 {
        self.index
    }
}

impl PageTableIndex {
    pub fn new(index: u16) -> (r: Self)
        requires
            index < 512,
        ensures
            r@ == index,
    {
        PageTableIndex { index }
    }

    /// Keep the low nine bits of `index`.
    pub fn new_truncate(index: u16) -> (r: Self)
        ensures
            r@ == index % 512,
            r@ < 512,
    {
        PageTableIndex { index: index % 512 }
    }

    pub fn as_u16(self) -> (r: u16)
        ensures
            r == self@,
    {
        self.index
    }

    pub fn as_usize(self) -> (r: usize)
        ensures
            r == self@ as usize,
    {
        self.index as usize
    }
}

/// A 12-bit offset into a 4 KiB page.
#[derive(Clone, Copy, Debug, PartialEq, Eq, Structural, PartialOrd, Ord, Hash)]
pub struct PageOffset {
    offset: u16,
}

impl View for PageOffset {
    type V = u16;

    closed spec fn view(&self) -> u16 {
        self.offset
    }
}

impl PageOffset {
    pub fn new(offset: u16) -> (r: Self)
        requires
            offset < 4096,
        ensures
            r@ == offset,
    {
        PageOffset { offset }
    }

    /// Keep the low twelve bits of `offset`.
    pub fn new_truncate(offset: u16) -> (r: Self)
        ensures
            r@ == offset % 4096,
            r@ < 4096,
    {
        PageOffset { offset: offset % 4096 }
    }

    pub fn as_u16(self) -> (r: u16)
        ensures
            r == self@,
    {
        self.offset
    }

    pub fn as_u64(self) -> (r: u64)
        ensures
            r == self@ as u64,
    {
        self.offset as u64
    }

    pub fn as_usize(self) -> (r: usize)
        ensures
            r == self@ as usize,
    {
        self.offset as usize
    }
}

/// The nine index bits that level `level` of the page walk reads from a
/// virtual address.
pub open spec fn spec_table_index(a: u64, level: int) -> u16
    recommends
        1 <= level <= 4,
{
    ((a >> ((12 + (level - 1) * 9) as u64)) & 0x1FF) as u16
}

/// The low twelve bits of a virtual address.
pub open spec fn spec_page_offset(a: u64) -> u16 {
    (a & 0xFFF) as u16
}

/// The inverse bit-packing: rebuild a canonical virtual address from
/// its four table indices and its page offset.
pub open spec fn spec_recompose(p4: u16, p3: u16, p2: u16, p1: u16, offset: u16) -> u64
    recommends
        p4 < 512,
        p3 < 512,
        p2 < 512,
        p1 < 512,
        offset < 4096,
{
    let low = ((p4 as u64) << 39u64) | ((p3 as u64) << 30u64) | ((p2 as u64) << 21u64) | ((
    p1 as u64) << 12u64) | (offset as u64);
    if p4 >= 256 {
        low | 0xFFFF_0000_0000_0000
    } else {
        low
    }
}

/// Rebuilding a canonical virtual address from its table indices and
/// page offset reproduces it exactly.
pub proof fn lemma_recompose_indices(a: u64)
    requires
        crate::addr::is_canonical(a),
    ensures
        spec_recompose(
            spec_table_index(a, 4),
            spec_table_index(a, 3),
            spec_table_index(a, 2),
            spec_table_index(a, 1),
            spec_page_offset(a),
        ) == a,
{
    let p4 = spec_table_index(a, 4);
    let p3 = spec_table_index(a, 3);
    let p2 = spec_table_index(a, 2);
    let p1 = spec_table_index(a, 1);
    let off = spec_page_offset(a);
    assert(p4 == ((a >> 39u64) & 0x1FF) as u16);
    assert(p3 == ((a >> 30u64) & 0x1FF) as u16);
    assert(p2 == ((a >> 21u64) & 0x1FF) as u16);
    assert(p1 == ((a >> 12u64) & 0x1FF) as u16);
    assert((if p4 >= 256 {
        (((p4 as u64) << 39u64) | ((p3 as u64) << 30u64) | ((p2 as u64) << 21u64) | ((
        p1 as u64) << 12u64) | (off as u64)) | 0xFFFF_0000_0000_0000
    } else {
        ((p4 as u64) << 39u64) | ((p3 as u64) << 30u64) | ((p2 as u64) << 21u64) | ((
        p1 as u64) << 12u64) | (off as u64)
    }) == a) by (bit_vector)
        requires
            p4 == ((a >> 39u64) & 0x1FF) as u16,
            p3 == ((a >> 30u64) & 0x1FF) as u16,
            p2 == ((a >> 21u64) & 0x1FF) as u16,
            p1 == ((a >> 12u64) & 0x1FF) as u16,
            off == (a & 0xFFF) as u16,
            a < 0x0000_8000_0000_0000 || a >= 0xFFFF_8000_0000_0000,
    ;
}

impl VirtualAddress {
    /// The level-1 table index: bits 12 to 20.
    pub fn p1_index(self) -> (r: PageTableIndex)
        ensures
            r@ == spec_table_index(self@, 1),
            r@ < 512,
    {
        proof {
            let a = self@;
            assert(((a >> 12u64) as u16) % 512 == ((a >> 12u64) & 0x1FF) as u16) by (bit_vector);
        }
        PageTableIndex::new_truncate((self.as_raw() >> 12u64) as u16)
    }

    /// The level-2 table index: bits 21 to 29.
    pub fn p2_index(self) -> (r: PageTableIndex)
        ensures
            r@ == spec_table_index(self@, 2),
            r@ < 512,
    {
        proof {
            let a = self@;
            assert(((a >> 21u64) as u16) % 512 == ((a >> 21u64) & 0x1FF) as u16) by (bit_vector);
        }
        PageTableIndex::new_truncate((self.as_raw() >> 21u64) as u16)
    }

    /// The level-3 table index: bits 30 to 38.
    pub fn p3_index(self) -> (r: PageTableIndex)
        ensures
            r@ == spec_table_index(self@, 3),
            r@ < 512,
    {
        proof {
            let a = self@;
            assert(((a >> 30u64) as u16) % 512 == ((a >> 30u64) & 0x1FF) as u16) by (bit_vector);
        }
        PageTableIndex::new_truncate((self.as_raw() >> 30u64) as u16)
    }

    /// The level-4 table index: bits 39 to 47.
    pub fn p4_index(self) -> (r: PageTableIndex)
        ensures
            r@ == spec_table_index(self@, 4),
            r@ < 512,
    {
        proof {
            let a = self@;
            assert(((a >> 39u64) as u16) % 512 == ((a >> 39u64) & 0x1FF) as u16) by (bit_vector);
        }
        PageTableIndex::new_truncate((self.as_raw() >> 39u64) as u16)
    }

    /// The table index that the given level of the page walk reads.
    pub fn page_table_index(self, level: PageTableLevel) -> (r: PageTableIndex)
        ensures
            r@ == spec_table_index(self@, level.spec_number() as int),
            r@ < 512,
    {
        match level {
            PageTableLevel::One => self.p1_index(),
            PageTableLevel::Two => self.p2_index(),
            PageTableLevel::Three => self.p3_index(),
            PageTableLevel::Four => self.p4_index(),
        }
    }

    /// The offset within the 4 KiB page: the low twelve bits.
    pub fn page_offset(self) -> (r: PageOffset)
        ensures
            r@ == spec_page_offset(self@),
            r@ < 4096,
    {
        proof {
            let a = self@;
            assert((a as u16) % 4096 == (a & 0xFFF) as u16) by (bit_vector);
        }
        PageOffset::new_truncate(self.as_raw() as u16)
    }
}

/// Level of a page table; the walk runs from level four down to one.
#[derive(Clone, Copy, Debug, PartialEq, Eq, Structural, PartialOrd, Ord, Hash)]
pub enum PageTableLevel {
    One,
    Two,
    Three,
    Four,
}

impl PageTableLevel {
    pub open spec fn spec_number(self) -> u64 {
        match self {
            PageTableLevel::One => 1,
            PageTableLevel::Two => 2,
            PageTableLevel::Three => 3,
            PageTableLevel::Four => 4,
        }
    }

    /// The level as a number between one and four.
    pub fn number(self) -> (r: u64)
        ensures
            r == self.spec_number(),
    {
        match self {
            PageTableLevel::One => 1,
            PageTableLevel::Two => 2,
            PageTableLevel::Three => 3,
            PageTableLevel::Four => 4,
        }
    }

    /// The next level down, where the walk continues; none below one.
    pub fn lower(self) -> (r: Option<Self>)
        ensures
            self == PageTableLevel::Four ==> r == Some(PageTableLevel::Three),
            self == PageTableLevel::Three ==> r == Some(PageTableLevel::Two),
            self == PageTableLevel::Two ==> r == Some(PageTableLevel::One),
            self == PageTableLevel::One ==> r is None,
    {
        match self {
            PageTableLevel::Four => Some(PageTableLevel::Three),
            PageTableLevel::Three => Some(PageTableLevel::Two),
            PageTableLevel::Two => Some(PageTableLevel::One),
            PageTableLevel::One => None,
        }
    }

    /// The next level up; none above four.
    pub fn higher(self) -> (r: Option<Self>)
        ensures
            self == PageTableLevel::Four ==> r is None,
            self == PageTableLevel::Three ==> r == Some(PageTableLevel::Four),
            self == PageTableLevel::Two ==> r == Some(PageTableLevel::Three),
            self == PageTableLevel::One ==> r == Some(PageTableLevel::Two),
    {
        match self {
            PageTableLevel::Four => None,
            PageTableLevel::Three => Some(PageTableLevel::Four),
            PageTableLevel::Two => Some(PageTableLevel::Three),
            PageTableLevel::One => Some(PageTableLevel::Two),
        }
    }

    /// How much address space one whole table at this level spans.
    pub fn table_address_space_alignment(self) -> (r: u64)
        ensures
            r == 1u64 << ((self.spec_number() * 9 + 12) as u64),
    {
        1u64 << (self.number() * 9 + 12)
    }

    /// How much address space one entry at this level spans.
    pub fn entry_address_space_alignment(self) -> (r: u64)
        ensures
            r == 1u64 << (((self.spec_number() - 1) * 9 + 12) as u64),
    {
        1u64 << ((self.number() - 1) * 9 + 12)
    }
}

/// A 64-bit page table entry.
#[derive(Clone, Copy, Debug, PartialEq, Eq, Structural)]
pub struct PageTableEntry {
    entry: u64,
}

impl View for PageTableEntry {
    type V = u64;

    closed spec fn view(&self) -> u64 {
        self.entry
    }
}

impl PageTableEntry {
    pub fn new() -> (r: Self)
        ensures
            r@ == 0,
    {
        PageTableEntry { entry: 0 }
    }

    /// True if the entry is all zero.
    pub fn is_unused(&self) -> (r: bool)
        ensures
            r == (self@ == 0),
    {
        self.entry == 0
    }

    pub fn set_unused(&mut self)
        ensures
            final(self)@ == 0,
    {
        self.entry = 0
    }

    /// The flag bits of the entry.
    pub fn flags(&self) -> (r: PageTableFlags)
        ensures
            r@ == self@ & PAGE_TABLE_FLAGS_MASK,
    {
        PageTableFlags::from_bits_truncate(self.entry)
    }

    /// The physical address stored in bits 12 to 51.
    pub fn address(&self) -> (r: PhysicalAddress)
        ensures
            r@ == spec_entry_address(self@),
            r.wf(),
            r@ % 4096 == 0,
    {
        proof {
            let e = self@;
            assert(e & 0x000F_FFFF_FFFF_F000 < 0x0010_0000_0000_0000 && (e
                & 0x000F_FFFF_FFFF_F000) % 4096 == 0) by (bit_vector);
        }
        PhysicalAddress::new(self.entry & PAGE_TABLE_ADDRESS_MASK)
    }

    /// Write frame address and flags together; address bits come only
    /// from `address`, flag bits only from `flags`.
    pub fn set_address(&mut self, address: PhysicalAddress, flags: PageTableFlags)
        ensures
            final(self)@ == (address@ & PAGE_TABLE_ADDRESS_MASK) | (flags@
                & PAGE_TABLE_FLAGS_MASK),
    {
        self.entry = (address.as_raw() & PAGE_TABLE_ADDRESS_MASK) | (flags.bits()
            & PAGE_TABLE_FLAGS_MASK);
    }

    /// Replace the flags while preserving the stored address.
    pub fn set_flags(&mut self, flags: PageTableFlags)
        ensures
            final(self)@ == (old(self)@ & PAGE_TABLE_ADDRESS_MASK) | (flags@
                & PAGE_TABLE_FLAGS_MASK),
    {
        self.entry = (self.entry & PAGE_TABLE_ADDRESS_MASK) | (flags.bits()
            & PAGE_TABLE_FLAGS_MASK);
    }

    /// The frame the entry maps: fails with `FrameNotPresent` while the
    /// present flag is clear, and with `HugePage` where the present and
    /// huge-page flags are both set, whatever the stored address bits.
    pub fn frame(&self) -> (r: Result<PhysicalFrame<Size4KiB>, FrameError>)
        ensures
            !spec_entry_present(self@) ==> r == Err::<PhysicalFrame<Size4KiB>, FrameError>(
                FrameError::FrameNotPresent,
            ),
            spec_entry_present(self@) && spec_entry_huge(self@) ==> r == Err::<
                PhysicalFrame<Size4KiB>,
                FrameError,
            >(FrameError::HugePage),
            spec_entry_present(self@) && !spec_entry_huge(self@) ==> (r matches Ok(f) && f@
                == spec_entry_address(self@) && f.wf()),
    {
        proof {
            let e = self@;
            assert(((e & PAGE_TABLE_FLAGS_MASK) & FLAG_PRESENT == FLAG_PRESENT) == (e
                & FLAG_PRESENT != 0)) by (bit_vector);
            assert(((e & PAGE_TABLE_FLAGS_MASK) & FLAG_HUGE_PAGE == FLAG_HUGE_PAGE) == (e
                & FLAG_HUGE_PAGE != 0)) by (bit_vector);
        }
        if !self.flags().contains(PageTableFlags::present()) {
            Err(FrameError::FrameNotPresent)
        } else if self.flags().contains(PageTableFlags::huge_page()) {
            Err(FrameError::HugePage)
        } else {
            let address = self.address();
            proof {
                <Size4KiB as crate::frame::PageSize>::size_properties();
                crate::addr::lemma_align_down(address@, 4096);
            }
            Ok(PhysicalFrame::containing_address(address))
        }
    }
}

/// One node of the page-table tree: 512 entries read by nine bits of
/// the virtual address.
#[derive(Debug)]
pub struct PageTable {
    entries: Vec<PageTableEntry>,
}

impl View for PageTable {
    type V = Seq<u64>;

    closed spec fn view(&self) -> Seq<u64> {
        self.entries@.map_values(|e: PageTableEntry| e@)
    }
}

impl PageTable {
    /// The table has exactly 512 entries.
    pub open spec fn wf(self) -> bool {
        self@.len() == 512
    }

    /// Every entry of the table is unused.
    pub open spec fn spec_is_empty(self) -> bool {
        forall|i: int| 0 <= i < self@.len() ==> self@[i] == 0
    }

    /// A fresh table: all 512 entries zero.
    pub fn new() -> (r: Self)
        ensures
            r.wf(),
            r.spec_is_empty(),
    {
        let mut entries: Vec<PageTableEntry> = Vec::new();
        let mut i: usize = 0;
        while i < ENTRY_COUNT
            invariant
                i <= ENTRY_COUNT,
                entries@.len() == i,
                forall|j: int| 0 <= j < i ==> entries@[j]@ == 0,
            decreases ENTRY_COUNT - i,
        {
            entries.push(PageTableEntry::new());
            i = i + 1;
        }
        let r = PageTable { entries };
        proof {
            assert(forall|j: int| 0 <= j < 512 ==> r@[j] == 0);
        }
        r
    }

    /// The entry at `index`.
    pub fn entry_at(&self, index: usize) -> (r: PageTableEntry)
        requires
            self.wf(),
            index < 512,
        ensures
            r@ == self@[index as int],
    {
        self.entries[index]
    }

    /// Replace the entry at `index`.
    pub fn set_entry(&mut self, index: usize, entry: PageTableEntry)
        requires
            old(self).wf(),
            index < 512,
        ensures
            final(self).wf(),
            final(self)@ == old(self)@.update(index as int, entry@),
    {
        self.entries[index] = entry;
        proof {
            assert(self@ =~= old(self)@.update(index as int, entry@));
        }
    }

    /// The entries in index order, as one finite, restartable sequence.
    pub fn iter(&self) -> (r: Vec<PageTableEntry>)
        requires
            self.wf(),
        ensures
            r@.len() == 512,
            forall|i: int| 0 <= i < 512 ==> r@[i]@ == self@[i],
    {
        let mut out: Vec<PageTableEntry> = Vec::new();
        let mut i: usize = 0;
        while i < ENTRY_COUNT
            invariant
                self.wf(),
                i <= ENTRY_COUNT,
                out@.len() == i,
                forall|j: int| 0 <= j < i ==> out@[j]@ == self@[j],
            decreases ENTRY_COUNT - i,
        {
            out.push(self.entry_at(i));
            i = i + 1;
        }
        out
    }

    /// True if all the table entries are unused.
    pub fn is_empty(&self) -> (r: bool)
        requires
            self.wf(),
        ensures
            r == self.spec_is_empty(),
    {
        let mut i: usize = 0;
        while i < ENTRY_COUNT
            invariant
                self.wf(),
                i <= ENTRY_COUNT,
                forall|j: int| 0 <= j < i ==> self@[j] == 0,
            decreases ENTRY_COUNT - i,
        {
            if !self.entry_at(i).is_unused() {
                return false;
            }
            i = i + 1;
        }
        true
    }

    /// Clear every entry of the table.
    pub fn reset(&mut self)
        requires
            old(self).wf(),
        ensures
            final(self).wf(),
            final(self).spec_is_empty(),
    {
        let mut i: usize = 0;
        while i < ENTRY_COUNT
            invariant
                self.wf(),
                i <= ENTRY_COUNT,
                forall|j: int| 0 <= j < i ==> self@[j] == 0,
            decreases ENTRY_COUNT - i,
        {
            self.set_entry(i, PageTableEntry::new());
            i = i + 1;
        }
    }
}

} // verus!
