use kernel_core::cpuid::{CpuId, CpuIdReader, CpuIdResult, Vendor, VendorInfo};

/// A reader that answers from recorded register values, the way tests
/// stand in for the hardware instruction.
struct RecordedReader {
    vendor: CpuIdResult,
    extended: CpuIdResult,
}

impl CpuIdReader for RecordedReader {
    fn cpuid1(&self, eax: u32) -> CpuIdResult {
        self.cpuid2(eax, 0)
    }

    fn cpuid2(&self, eax: u32, _ecx: u32) -> CpuIdResult {
        if eax == 0 {
            self.vendor
        } else if eax == 0x8000_0000 {
            self.extended
        } else {
            CpuIdResult { eax: 0, ebx: 0, ecx: 0, edx: 0 }
        }
    }
}

fn intel_reader() -> RecordedReader {
    RecordedReader {
        vendor: CpuIdResult {
            eax: 0x16,
            ebx: 0x756E_6547,
            ecx: 0x6C65_746E,
            edx: 0x4965_6E69,
        },
        extended: CpuIdResult { eax: 0x8000_0008, ebx: 0, ecx: 0, edx: 0 },
    }
}

fn amd_reader() -> RecordedReader {
    RecordedReader {
        vendor: CpuIdResult {
            eax: 0x0D,
            ebx: 0x6874_7541,
            ecx: 0x444D_4163,
            edx: 0x6974_6E65,
        },
        extended: CpuIdResult { eax: 0x8000_001F, ebx: 0, ecx: 0, edx: 0 },
    }
}

#[test]
fn test_cpu_id() {
    let cpu_id = CpuId::with_cpuid_reader(intel_reader());
    if let Some(v) = cpu_id.get_vendor_info() {
        assert!(v.as_str() == "GenuineIntel");
    } else {
        panic!("vendor info must be available");
    }
}

#[test]
fn vendor_info_is_always_available() {
    let cpu_id = CpuId::with_cpuid_reader(amd_reader());
    let v = cpu_id.get_vendor_info();
    assert!(v.is_some());
    assert!(v.unwrap().as_str() == "AuthenticAMD");
}

#[test]
fn vendor_is_decided_from_the_vendor_leaf() {
    let intel = intel_reader().vendor;
    let amd = amd_reader().vendor;
    assert_eq!(Vendor::from_vendor_leaf(intel), Vendor::Intel);
    assert_eq!(Vendor::from_vendor_leaf(amd), Vendor::Amd);
    let other = CpuIdResult { eax: 1, ebx: 2, ecx: 3, edx: 4 };
    assert_eq!(Vendor::from_vendor_leaf(other), Vendor::Unknown(4, 3, 4));
}

#[test]
fn amd_leaves_two_to_four_are_unsupported() {
    let r = amd_reader();
    let cpu_id = CpuId::from_leaves(r.vendor, r.extended, r);
    assert!(cpu_id.leaf_is_supported(0));
    assert!(cpu_id.leaf_is_supported(1));
    assert!(!cpu_id.leaf_is_supported(2));
    assert!(!cpu_id.leaf_is_supported(3));
    assert!(!cpu_id.leaf_is_supported(4));
    assert!(cpu_id.leaf_is_supported(5));
    assert!(cpu_id.leaf_is_supported(0x0D));
    assert!(!cpu_id.leaf_is_supported(0x0E));
}

#[test]
fn extended_leaves_compare_against_the_extended_bound() {
    let r = intel_reader();
    let cpu_id = CpuId::from_leaves(r.vendor, r.extended, r);
    assert!(cpu_id.leaf_is_supported(0x8000_0000));
    assert!(cpu_id.leaf_is_supported(0x8000_0008));
    assert!(!cpu_id.leaf_is_supported(0x8000_0009));
    assert!(cpu_id.leaf_is_supported(0x16));
    assert!(!cpu_id.leaf_is_supported(0x17));
}

#[test]
fn all_zero_checks_every_register() {
    assert!(CpuIdResult { eax: 0, ebx: 0, ecx: 0, edx: 0 }.all_zero());
    assert!(!CpuIdResult { eax: 0, ebx: 1, ecx: 0, edx: 0 }.all_zero());
}

#[test]
fn vendor_bytes_spell_the_vendor_string() {
    let v = VendorInfo::new(0x756E_6547, 0x4965_6E69, 0x6C65_746E);
    assert_eq!(v.bytes(), b"GenuineIntel".to_vec());
    assert!(v.as_str() == "GenuineIntel");
}
