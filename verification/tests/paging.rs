use kernel_core::addr::{PhysicalAddress, VirtualAddress};
use kernel_core::frame::FrameError;
use kernel_core::paging::{
    PageOffset, PageTable, PageTableEntry, PageTableFlags, PageTableIndex, PageTableLevel,
};

#[test]
fn fresh_table_is_empty_and_all_unused() {
    let t = PageTable::new();
    assert!(t.is_empty());
    for e in t.iter() {
        assert!(e.is_unused());
    }
}

#[test]
fn set_address_then_present_flag_maps_the_frame() {
    let mut t = PageTable::new();
    let mut e = PageTableEntry::new();
    e.set_address(PhysicalAddress::new(0x2000), PageTableFlags::present());
    t.set_entry(5, e);
    let got = t.entry_at(5);
    match got.frame() {
        Ok(f) => assert_eq!(f.start_address().as_raw(), 0x2000),
        Err(_) => panic!("entry should map a frame"),
    }
    assert!(!t.is_empty());
}

#[test]
fn frame_fails_without_present_flag_whatever_the_address() {
    let mut e = PageTableEntry::new();
    e.set_address(PhysicalAddress::new(0x7_F000), PageTableFlags::empty());
    assert!(matches!(e.frame(), Err(FrameError::FrameNotPresent)));
}

#[test]
fn frame_fails_as_huge_page_when_present_and_huge() {
    let mut e = PageTableEntry::new();
    let flags = PageTableFlags::present().union(PageTableFlags::huge_page());
    e.set_address(PhysicalAddress::new(0x3000), flags);
    assert!(matches!(e.frame(), Err(FrameError::HugePage)));
}

#[test]
fn set_flags_preserves_the_stored_address() {
    let mut e = PageTableEntry::new();
    e.set_address(PhysicalAddress::new(0x5000), PageTableFlags::empty());
    e.set_flags(PageTableFlags::present().union(PageTableFlags::writable()));
    assert_eq!(e.address().as_raw(), 0x5000);
    assert!(e.flags().contains(PageTableFlags::present()));
    assert!(e.flags().contains(PageTableFlags::writable()));
    assert!(!e.flags().contains(PageTableFlags::huge_page()));
}

#[test]
fn set_address_masks_flag_bits_out_of_the_address() {
    let mut e = PageTableEntry::new();
    // The low twelve bits of the address may not leak into the flags.
    e.set_address(PhysicalAddress::new(0x2FFF), PageTableFlags::empty());
    assert_eq!(e.address().as_raw(), 0x2000);
    assert!(e.flags().bits() == 0);
}

#[test]
fn reset_clears_every_entry() {
    let mut t = PageTable::new();
    let mut e = PageTableEntry::new();
    e.set_address(PhysicalAddress::new(0x2000), PageTableFlags::present());
    t.set_entry(0, e);
    t.set_entry(511, e);
    assert!(!t.is_empty());
    t.reset();
    assert!(t.is_empty());
}

#[test]
fn set_unused_zeroes_the_entry() {
    let mut e = PageTableEntry::new();
    e.set_address(PhysicalAddress::new(0x2000), PageTableFlags::present());
    assert!(!e.is_unused());
    e.set_unused();
    assert!(e.is_unused());
}

#[test]
fn virtual_address_decomposes_into_indices_and_offset() {
    let raw = (3u64 << 39) | (4u64 << 30) | (5u64 << 21) | (6u64 << 12) | 0x123;
    let v = VirtualAddress::new(raw);
    assert_eq!(v.p4_index().as_u16(), 3);
    assert_eq!(v.p3_index().as_u16(), 4);
    assert_eq!(v.p2_index().as_u16(), 5);
    assert_eq!(v.p1_index().as_u16(), 6);
    assert_eq!(u64::from(v.page_offset().as_u16()), 0x123);
    assert_eq!(v.page_table_index(PageTableLevel::Three).as_u16(), 4);
    assert_eq!(v.page_table_index(PageTableLevel::One).as_u16(), 6);
}

#[test]
fn recomposing_the_indices_reproduces_the_address() {
    for raw in [0u64, 0x1234, (3u64 << 39) | 0xABC, 0xFFFF_8000_0012_3456] {
        let v = VirtualAddress::new(raw);
        let p4 = v.p4_index().as_u16() as u64;
        let p3 = v.p3_index().as_u16() as u64;
        let p2 = v.p2_index().as_u16() as u64;
        let p1 = v.p1_index().as_u16() as u64;
        let off = v.page_offset().as_u16() as u64;
        let low = (p4 << 39) | (p3 << 30) | (p2 << 21) | (p1 << 12) | off;
        let rebuilt = if p4 >= 256 { low | 0xFFFF_0000_0000_0000 } else { low };
        assert_eq!(rebuilt, raw);
    }
}

#[test]
fn page_table_index_truncates_to_nine_bits() {
    assert_eq!(PageTableIndex::new_truncate(512).as_u16(), 0);
    assert_eq!(PageTableIndex::new_truncate(513).as_u16(), 1);
    assert_eq!(PageTableIndex::new(511).as_usize(), 511);
}

#[test]
fn page_offset_truncates_to_twelve_bits() {
    assert_eq!(PageOffset::new_truncate(4096).as_u16(), 0);
    assert_eq!(PageOffset::new_truncate(4097).as_u64(), 1);
    assert_eq!(PageOffset::new(4095).as_usize(), 4095);
}

#[test]
fn levels_step_up_and_down() {
    assert_eq!(PageTableLevel::Four.lower(), Some(PageTableLevel::Three));
    assert_eq!(PageTableLevel::One.lower(), None);
    assert_eq!(PageTableLevel::One.higher(), Some(PageTableLevel::Two));
    assert_eq!(PageTableLevel::Four.higher(), None);
}

#[test]
fn level_alignments_match_the_walk_geometry() {
    assert_eq!(PageTableLevel::One.entry_address_space_alignment(), 1 << 12);
    assert_eq!(PageTableLevel::One.table_address_space_alignment(), 1 << 21);
    assert_eq!(PageTableLevel::Two.entry_address_space_alignment(), 1 << 21);
    assert_eq!(PageTableLevel::Four.table_address_space_alignment(), 1 << 48);
    assert_eq!(PageTableLevel::Four.entry_address_space_alignment(), 1 << 39);
}

#[test]
fn from_bits_truncate_keeps_only_flag_bits() {
    let f = PageTableFlags::from_bits_truncate(0xFFFF);
    assert_eq!(f.bits(), 0x1FF);
    let g = PageTableFlags::from_bits_truncate(0x8000_0000_0000_1001);
    assert_eq!(g.bits(), 0x8000_0000_0000_0001);
    assert!(g.contains(PageTableFlags::present()));
    assert!(g.contains(PageTableFlags::no_execute()));
}

#[test]
fn present_flag_set_after_the_address_still_maps_the_frame() {
    let mut t = PageTable::new();
    let mut e = PageTableEntry::new();
    e.set_address(PhysicalAddress::new(0x6000), PageTableFlags::empty());
    e.set_flags(PageTableFlags::present());
    t.set_entry(7, e);
    match t.entry_at(7).frame() {
        Ok(f) => assert_eq!(f.start_address().as_raw(), 0x6000),
        Err(_) => panic!("entry should map a frame"),
    }
    assert!(!t.is_empty());
}
