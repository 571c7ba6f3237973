//! CPU identification: reading processor information out of the
//! `cpuid` leaves.
//!
//! Executing the instruction itself is hardware work and stays outside
//! this crate, behind the `CpuIdReader` trait; everything decided from
//! the returned register values is verified here.

use vstd::prelude::*;

verus! {

/// Leaf that carries the vendor string and the highest supported leaf.
pub const EAX_VENDOR_INFO: u32 = 0x0000_0000;

/// First leaf of the extended range.
pub const EAX_EXTENDED_FUNCTION_INFO: u32 = 0x8000_0000;

/// The four registers one `cpuid` invocation fills.
#[derive(Copy, Clone, Debug, PartialEq, Eq, Structural)]
pub struct CpuIdResult {
    /// Value of the EAX register.
    pub eax: u32,
    /// Value of the EBX register.
    pub ebx: u32,
    /// Value of the ECX register.
    pub ecx: u32,
    /// Value of the EDX register.
    pub edx: u32,
}

impl CpuIdResult {
    /// All four registers came back zero.
    pub fn all_zero(&self) -> (r: bool)
        ensures
            r == (self.eax == 0 && self.ebx == 0 && self.ecx == 0 && self.edx == 0),
    {
        self.eax == 0 && self.ebx == 0 && self.ecx == 0 && self.edx == 0
    }
}

/// Where `cpuid` leaves come from. The kernel implements this over the
/// hardware instruction; a test hands in recorded register values.
pub trait CpuIdReader {
    /// Read the leaf selected by `eax`, with ECX zero.
    fn cpuid1(&self, eax: u32) -> CpuIdResult;

    /// Read the leaf selected by `eax` and `ecx`.
    fn cpuid2(&self, eax: u32, ecx: u32) -> CpuIdResult;
}

/// The vendor leaf spells "GenuineIntel" over EBX, EDX, ECX.
pub open spec fn spec_is_intel(ebx: u32, edx: u32, ecx: u32) -> bool {
    ebx == 0x756E_6547 && edx == 0x4965_6E69 && ecx == 0x6C65_746E
}

/// The vendor leaf spells "AuthenticAMD" over EBX, EDX, ECX.
pub open spec fn spec_is_amd(ebx: u32, edx: u32, ecx: u32) -> bool {
    ebx == 0x6874_7541 && edx == 0x6974_6E65 && ecx == 0x444D_4163
}

/// Processor vendor.
#[derive(Clone, Copy, Debug, PartialEq, Eq, Structural)]
pub enum Vendor {
    Intel,
    Amd,
    Unknown(u32, u32, u32),
}

/// Which vendor a vendor leaf names.
pub open spec fn spec_vendor_of(res: CpuIdResult) -> Vendor {
    if spec_is_intel(res.ebx, res.edx, res.ecx) {
        Vendor::Intel
    } else if spec_is_amd(res.ebx, res.edx, res.ecx) {
        Vendor::Amd
    } else {
        Vendor::Unknown(res.edx, res.ecx, res.edx)
    }
}

impl Vendor {
    /// Decide the vendor from the registers of the vendor leaf.
    pub fn from_vendor_leaf(res: CpuIdResult) -> (r: Self)
        ensures
            r == spec_vendor_of(res),
    {
        if res.ebx == 0x756E_6547 && res.edx == 0x4965_6E69 && res.ecx == 0x6C65_746E {
            Vendor::Intel
        } else if res.ebx == 0x6874_7541 && res.edx == 0x6974_6E65 && res.ecx == 0x444D_4163 {
            Vendor::Amd
        } else {
            Vendor::Unknown(res.edx, res.ecx, res.edx)
        }
    }
}

/// All bytes are plain ASCII.
pub open spec fn is_ascii_bytes(s: Seq<u8>) -> bool {
    forall|i: int| 0 <= i < s.len() ==> s[i] < 0x80
}

/// Relies on `String::from_utf8`: UTF-8 extends ASCII, so a vector of
/// ASCII bytes decodes to exactly those characters. Non-UTF-8 input
/// gives the empty string here instead of failing.
#[verifier::external_body]
fn ascii_string(bytes: &Vec<u8>) -> (r: String)
    ensures
        is_ascii_bytes(bytes@) ==> r@.len() == bytes@.len() && (forall|i: int|
            0 <= i < bytes@.len() ==> r@[i] == bytes@[i] as char),
{
    String::from_utf8(bytes.clone()).unwrap_or_default()
}

/// Vendor info string: twelve bytes filled from EBX, EDX and ECX of
/// the vendor leaf, for example "AuthenticAMD" or "GenuineIntel".
#[derive(Debug, PartialEq, Eq, Structural)]
pub struct VendorInfo {
    ebx: u32,
    edx: u32,
    ecx: u32,
}

impl View for VendorInfo {
    type V = (u32, u32, u32);

    closed spec fn view(&self) -> (u32, u32, u32) {
        (self.ebx, self.edx, self.ecx)
    }
}

impl VendorInfo {
    pub fn new(ebx: u32, edx: u32, ecx: u32) -> (r: Self)
        ensures
            r@ == (ebx, edx, ecx),
    {
        VendorInfo { ebx, edx, ecx }
    }

    /// The twelve bytes of the vendor string: EBX, EDX, ECX in that
    /// order, each least-significant byte first.
    pub open spec fn spec_bytes(self) -> Seq<u8> {
        seq![
            (self@.0 & 0xFF) as u8,
            ((self@.0 >> 8u32) & 0xFF) as u8,
            ((self@.0 >> 16u32) & 0xFF) as u8,
            ((self@.0 >> 24u32) & 0xFF) as u8,
            (self@.1 & 0xFF) as u8,
            ((self@.1 >> 8u32) & 0xFF) as u8,
            ((self@.1 >> 16u32) & 0xFF) as u8,
            ((self@.1 >> 24u32) & 0xFF) as u8,
            (self@.2 & 0xFF) as u8,
            ((self@.2 >> 8u32) & 0xFF) as u8,
            ((self@.2 >> 16u32) & 0xFF) as u8,
            ((self@.2 >> 24u32) & 0xFF) as u8,
        ]
    }

    /// The vendor string as raw bytes.
    pub fn bytes(&self) -> (r: Vec<u8>)
        ensures
            r@ == self.spec_bytes(),
    {
        let mut v: Vec<u8> = Vec::new();
        v.push((self.ebx & 0xFF) as u8);
        v.push(((self.ebx >> 8u32) & 0xFF) as u8);
        v.push(((self.ebx >> 16u32) & 0xFF) as u8);
        v.push(((self.ebx >> 24u32) & 0xFF) as u8);
        v.push((self.edx & 0xFF) as u8);
        v.push(((self.edx >> 8u32) & 0xFF) as u8);
        v.push(((self.edx >> 16u32) & 0xFF) as u8);
        v.push(((self.edx >> 24u32) & 0xFF) as u8);
        v.push((self.ecx & 0xFF) as u8);
        v.push(((self.ecx >> 8u32) & 0xFF) as u8);
        v.push(((self.ecx >> 16u32) & 0xFF) as u8);
        v.push(((self.ecx >> 24u32) & 0xFF) as u8);
        proof {
            assert(v@ =~= self.spec_bytes());
        }
        v
    }

    /// The vendor string; meaningful when the registers hold ASCII, as
    /// every real vendor string does.
    pub fn as_str(&self) -> (r: String)
        ensures
            is_ascii_bytes(self.spec_bytes()) ==> r@.len() == 12 && (forall|i: int|
                0 <= i < 12 ==> r@[i] == self.spec_bytes()[i] as char),
    {
        let b = self.bytes();
        ascii_string(&b)
    }
}

/// Whether the processor answers for leaf `flag`, given the vendor and
/// the highest standard and extended leaves it reported.
pub open spec fn spec_leaf_supported(vendor: Vendor, leaves: u32, extended: u32, flag: u32) -> bool {
    if vendor == Vendor::Amd && 2 <= flag && flag <= 4 {
        false
    } else if flag < EAX_EXTENDED_FUNCTION_INFO {
        flag <= leaves
    } else {
        flag <= extended
    }
}

/// Processor identification, built from two probe reads and asking the
/// reader again for each further leaf.
pub struct CpuId<R: CpuIdReader> {
    supported_leaves: u32,
    supported_extended_leaves: u32,
    vendor: Vendor,
    read: R,
}

impl<R: CpuIdReader> CpuId<R> {
    pub closed spec fn spec_supported_leaves(self) -> u32 {
        self.supported_leaves
    }

    pub closed spec fn spec_supported_extended_leaves(self) -> u32 {
        self.supported_extended_leaves
    }

    pub closed spec fn spec_vendor(self) -> Vendor {
        self.vendor
    }

    /// Build the identification from the two probe leaves the reader
    /// returned: the vendor leaf and the first extended leaf.
    pub fn from_leaves(vendor_leaf: CpuIdResult, extended_leaf: CpuIdResult, read: R) -> (r:
        Self)
        ensures
            r.spec_supported_leaves() == vendor_leaf.eax,
            r.spec_supported_extended_leaves() == extended_leaf.eax,
            r.spec_vendor() == spec_vendor_of(vendor_leaf),
    {
        CpuId {
            supported_leaves: vendor_leaf.eax,
            supported_extended_leaves: extended_leaf.eax,
            vendor: Vendor::from_vendor_leaf(vendor_leaf),
            read,
        }
    }

    /// Probe the processor through `read`. What the fields end up
    /// holding depends on the processor alone; `from_leaves` states how
    /// they follow from the two probe reads.
    pub fn with_cpuid_reader(read: R) -> Self {
        let vendor_leaf = read.cpuid1(EAX_VENDOR_INFO);
        let extended_leaf = read.cpuid1(EAX_EXTENDED_FUNCTION_INFO);
        Self::from_leaves(vendor_leaf, extended_leaf, read)
    }

    /// Whether the processor answers for leaf `flag`.
    pub fn leaf_is_supported(&self, flag: u32) -> (r: bool)
        ensures
            r == spec_leaf_supported(
                self.spec_vendor(),
                self.spec_supported_leaves(),
                self.spec_supported_extended_leaves(),
                flag,
            ),
    {
        if Vendor::Amd == self.vendor && 2 <= flag && flag <= 4 {
            return false;
        }
        if flag < EAX_EXTENDED_FUNCTION_INFO {
            flag <= self.supported_leaves
        } else {
            flag <= self.supported_extended_leaves
        }
    }

    /// Get processor vendor info. The vendor leaf is always among the
    /// supported leaves, so this never comes back empty.
    pub fn get_vendor_info(&self) -> (r: Option<VendorInfo>)
        ensures
            r is Some,
    {
        if self.leaf_is_supported(EAX_VENDOR_INFO) {
            let res = self.read.cpuid1(EAX_VENDOR_INFO);
            Some(VendorInfo::new(res.ebx, res.edx, res.ecx))
        } else {
            None
        }
    }
}

} // verus!
