//! Handles on whole address spaces.

use vstd::prelude::*;
use crate::addr::{PhysicalAddress, VirtualAddress};

verus! {

/// Which side of the address space memory belongs to.
#[derive(Clone, Copy, Debug, PartialEq, Eq, Structural)]
pub enum MemoryKind {
    /// Kernel memory.
    Kernel,
    /// Userspace memory.
    Userspace,
}

/// A physical page together with the virtual address it is mapped at.
#[derive(Clone, Copy, Debug, PartialEq, Eq, Structural)]
pub struct MemoryDescriptor {
    pub physical_address: PhysicalAddress,
    pub virtual_address: VirtualAddress,
}

/// A handle on one address space: its kind and the physical address of
/// its root table.
#[derive(Debug)]
pub struct PageMapper {
    kind: MemoryKind,
    address: PhysicalAddress,
}

impl PageMapper {
    pub closed spec fn spec_kind(self) -> MemoryKind {
        self.kind
    }

    pub closed spec fn spec_address(self) -> PhysicalAddress {
        self.address
    }

    pub fn new(kind: MemoryKind, address: PhysicalAddress) -> (r: Self)
        ensures
            r.spec_kind() == kind,
            r.spec_address() == address,
    {
        PageMapper { kind, address }
    }

    /// Creating a fresh address space needs a frame allocator that the
    /// kernel does not provide yet; no mapper comes back.
    pub fn create(_kind: MemoryKind) -> (r: Option<Self>)
        ensures
            r is None,
    {
        None
    }

    /// Naming the live address space needs the hardware root register,
    /// which this crate does not read; no mapper comes back.
    pub fn current(_kind: MemoryKind) -> (r: Option<Self>)
        ensures
            r is None,
    {
        None
    }
}

} // verus!
