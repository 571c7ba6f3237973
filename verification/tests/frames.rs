use kernel_core::addr::PhysicalAddress;
use kernel_core::frame::{PhysicalFrame, Size4KiB};

#[test]
fn start_with_succeeds_exactly_on_aligned_addresses() {
    let f: PhysicalFrame<Size4KiB> =
        PhysicalFrame::start_with(PhysicalAddress::new(0x3000)).unwrap();
    assert_eq!(f.start_address().as_raw(), 0x3000);
    let r: Result<PhysicalFrame<Size4KiB>, _> =
        PhysicalFrame::start_with(PhysicalAddress::new(0x3001));
    assert!(r.is_err());
}

#[test]
fn containing_address_always_succeeds_and_aligns_down() {
    let f: PhysicalFrame<Size4KiB> =
        PhysicalFrame::containing_address(PhysicalAddress::new(0x3FFF));
    assert_eq!(f.start_address().as_raw(), 0x3000);
    let g: PhysicalFrame<Size4KiB> =
        PhysicalFrame::containing_address(PhysicalAddress::new(0x3000));
    assert_eq!(g.start_address().as_raw(), 0x3000);
}
