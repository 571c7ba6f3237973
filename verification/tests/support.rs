use kernel_core::addr::{PhysicalAddress, VirtualAddress};
use kernel_core::clock::{monotonic, realtime};
use kernel_core::mapper::{MemoryDescriptor, MemoryKind, PageMapper};
use kernel_core::qemu::QemuExitCode;

#[test]
fn exit_codes_match_the_debug_device_values() {
    assert_eq!(QemuExitCode::Success.code(), 0x10);
    assert_eq!(QemuExitCode::Failed.code(), 0x11);
}

#[test]
fn monotonic_adds_offset_and_counter() {
    assert_eq!(monotonic(0, 0), 0);
    assert_eq!(monotonic(100, 25), 125);
}

#[test]
fn realtime_adds_the_start_time_on_top() {
    assert_eq!(realtime(1_000_000, 100, 25), 1_000_125);
}

#[test]
fn mappers_for_fresh_or_current_spaces_are_not_available() {
    assert!(PageMapper::create(MemoryKind::Kernel).is_none());
    assert!(PageMapper::current(MemoryKind::Userspace).is_none());
    let _owned = PageMapper::new(MemoryKind::Kernel, PhysicalAddress::new(0x1000));
}

#[test]
fn memory_descriptors_compare_by_their_addresses() {
    let a = MemoryDescriptor {
        physical_address: PhysicalAddress::new(0x1000),
        virtual_address: VirtualAddress::new(0x2000),
    };
    let b = MemoryDescriptor {
        physical_address: PhysicalAddress::new(0x1000),
        virtual_address: VirtualAddress::new(0x2000),
    };
    assert_eq!(a, b);
}
