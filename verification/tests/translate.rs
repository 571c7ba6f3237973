use kernel_core::addr::{PhysicalAddress, VirtualAddress};
use kernel_core::frame::{PhysicalFrame, Size4KiB};
use kernel_core::paging::{PageTable, PageTableEntry, PageTableFlags};
use kernel_core::translate::{translate_address, TableArena, Translation};

fn table_with_entry(index: usize, target: u64, flags: PageTableFlags) -> PageTable {
    let mut t = PageTable::new();
    let mut e = PageTableEntry::new();
    e.set_address(PhysicalAddress::new(target), flags);
    t.set_entry(index, e);
    t
}

fn root_frame(base: u64) -> PhysicalFrame<Size4KiB> {
    PhysicalFrame::start_with(PhysicalAddress::new(base)).unwrap()
}

#[test]
fn four_level_walk_resolves_base_plus_offset() {
    // Address 0x1234: all upper indices 0, level-1 index 1, offset 0x234.
    let present = PageTableFlags::present();
    let mut arena = TableArena::new();
    arena.insert_table(0x1000, table_with_entry(0, 0x2000, present));
    arena.insert_table(0x2000, table_with_entry(0, 0x3000, present));
    arena.insert_table(0x3000, table_with_entry(0, 0x4000, present));
    arena.insert_table(0x4000, table_with_entry(1, 0x5000, present));
    let r = translate_address(&arena, &root_frame(0x1000), VirtualAddress::new(0x1234));
    match r {
        Translation::Mapped(pa) => assert_eq!(pa.as_raw(), 0x5234),
        _ => panic!("address should be mapped"),
    }
}

#[test]
fn missing_level4_entry_is_unmapped_without_touching_deeper_tables() {
    // Only the root table is visible; its entry for this address is not
    // present. A walk that read any deeper table would report it as not
    // visible instead of returning the valid negative result.
    let mut arena = TableArena::new();
    arena.insert_table(0x1000, PageTable::new());
    let r = translate_address(&arena, &root_frame(0x1000), VirtualAddress::new(0x1234));
    assert!(matches!(r, Translation::Unmapped));
}

#[test]
fn not_present_deeper_down_is_also_unmapped() {
    let present = PageTableFlags::present();
    let mut arena = TableArena::new();
    arena.insert_table(0x1000, table_with_entry(0, 0x2000, present));
    arena.insert_table(0x2000, PageTable::new());
    let r = translate_address(&arena, &root_frame(0x1000), VirtualAddress::new(0x1234));
    assert!(matches!(r, Translation::Unmapped));
}

#[test]
fn huge_page_entry_is_reported_as_unsupported() {
    let present = PageTableFlags::present();
    let huge = present.union(PageTableFlags::huge_page());
    let mut arena = TableArena::new();
    arena.insert_table(0x1000, table_with_entry(0, 0x2000, present));
    arena.insert_table(0x2000, table_with_entry(0, 0x3000, present));
    arena.insert_table(0x3000, table_with_entry(0, 0x20_0000, huge));
    let r = translate_address(&arena, &root_frame(0x1000), VirtualAddress::new(0x1234));
    assert!(matches!(r, Translation::HugePage));
}

#[test]
fn walk_into_an_invisible_table_says_so() {
    let present = PageTableFlags::present();
    let mut arena = TableArena::new();
    arena.insert_table(0x1000, table_with_entry(0, 0x2000, present));
    // The level-3 table at 0x2000 is not in the arena.
    let r = translate_address(&arena, &root_frame(0x1000), VirtualAddress::new(0x1234));
    assert!(matches!(r, Translation::TableNotVisible));
}

#[test]
fn offset_of_the_original_address_survives_translation() {
    let present = PageTableFlags::present();
    let mut arena = TableArena::new();
    arena.insert_table(0x1000, table_with_entry(0, 0x2000, present));
    arena.insert_table(0x2000, table_with_entry(0, 0x3000, present));
    arena.insert_table(0x3000, table_with_entry(0, 0x4000, present));
    arena.insert_table(0x4000, table_with_entry(0, 0x9000, present));
    let r = translate_address(&arena, &root_frame(0x1000), VirtualAddress::new(0xFFF));
    match r {
        Translation::Mapped(pa) => assert_eq!(pa.as_raw(), 0x9FFF),
        _ => panic!("address should be mapped"),
    }
}

#[test]
fn root_register_value_splits_into_frame_and_flags() {
    let (frame, flags) = kernel_core::translate::root_from_register(0x0000_0000_0123_4018);
    assert_eq!(frame.start_address().as_raw(), 0x0123_4000);
    assert_eq!(flags, 0x18);
}
