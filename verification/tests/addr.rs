use kernel_core::addr::{align_down, align_up, PhysicalAddress, VirtualAddress};

#[test]
fn align_down_rounds_to_previous_multiple() {
    assert_eq!(align_down(0x1234, 0x1000), 0x1000);
    assert_eq!(align_down(0x1000, 0x1000), 0x1000);
    assert_eq!(align_down(0xFFF, 0x1000), 0);
    assert_eq!(align_down(7, 2), 6);
    assert_eq!(align_down(7, 1), 7);
}

#[test]
fn align_up_rounds_to_next_multiple() {
    assert_eq!(align_up(0x1234, 0x1000), 0x2000);
    assert_eq!(align_up(0x1000, 0x1000), 0x1000);
    assert_eq!(align_up(1, 0x1000), 0x1000);
    assert_eq!(align_up(0, 0x1000), 0);
    assert_eq!(align_up(7, 1), 7);
}

#[test]
fn align_up_undoes_align_down_on_aligned_values() {
    // Aligned: the round trip gives the address back.
    assert_eq!(align_up(align_down(0x3000, 0x1000), 0x1000), 0x3000);
    // Not aligned: the round trip lands below the address.
    assert_eq!(align_up(align_down(0x3456, 0x1000), 0x1000), 0x3000);
}

#[test]
fn align_down_brackets_the_address() {
    for a in [0u64, 1, 0x7FF, 0x800, 0x12345, 0xFFFF_FFFF] {
        let d = align_down(a, 0x800);
        assert!(d <= a);
        assert!(a < d + 0x800);
        assert_eq!(d % 0x800, 0);
    }
}

#[test]
fn physical_address_wraps_its_raw_value() {
    let p = PhysicalAddress::new(0x1234);
    assert_eq!(p.as_raw(), 0x1234);
    assert_eq!(p.align_down(0x1000).as_raw(), 0x1000);
    assert_eq!(p.align_up(0x1000).as_raw(), 0x2000);
    assert!(!p.is_aligned(0x1000));
    assert!(PhysicalAddress::new(0x2000).is_aligned(0x1000));
}

#[test]
fn virtual_address_zero_is_null() {
    let z = VirtualAddress::zero();
    assert!(z.is_null());
    assert_eq!(z.as_raw(), 0);
    let v = VirtualAddress::new(0x1000);
    assert!(!v.is_null());
    assert_eq!(v.as_raw(), 0x1000);
}

#[test]
fn canonical_high_half_addresses_are_accepted() {
    let v = VirtualAddress::new(0xFFFF_8000_0000_1000);
    assert_eq!(v.as_raw(), 0xFFFF_8000_0000_1000);
}

#[test]
fn physical_arithmetic_fails_explicitly_instead_of_wrapping() {
    let p = PhysicalAddress::new(0x1000);
    assert_eq!(p.checked_add(0x234).unwrap().as_raw(), 0x1234);
    assert_eq!(p.checked_sub(0x1000).unwrap().as_raw(), 0);
    assert!(p.checked_sub(0x1001).is_none());
    // One byte below the architectural limit: adding two leaves it.
    let top = PhysicalAddress::new(0x000F_FFFF_FFFF_FFFF);
    assert!(top.checked_add(1).is_none());
    assert_eq!(p.checked_diff(PhysicalAddress::new(0x800)), Some(0x800));
    assert_eq!(PhysicalAddress::new(0x800).checked_diff(p), None);
}

#[test]
fn virtual_arithmetic_respects_the_canonical_hole() {
    let v = VirtualAddress::new(0x1000);
    assert_eq!(v.checked_add(0x234).unwrap().as_raw(), 0x1234);
    assert!(v.checked_sub(0x1001).is_none());
    // The last address of the low half: one more is non-canonical.
    let edge = VirtualAddress::new(0x0000_7FFF_FFFF_FFFF);
    assert!(edge.checked_add(1).is_none());
    let high = VirtualAddress::new(0xFFFF_8000_0000_0000);
    assert!(high.checked_sub(1).is_none());
    assert_eq!(high.checked_diff(VirtualAddress::zero()), Some(0xFFFF_8000_0000_0000));
}
