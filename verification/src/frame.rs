//! Physical frames: fixed-size, aligned units of physical memory.

use vstd::prelude::*;
use core::marker::PhantomData;
use crate::addr::{is_pow2, spec_align_down, PhysicalAddress, PHYSICAL_ADDRESS_LIMIT};

verus! {

/// The address handed to a frame constructor was not aligned to the
/// frame size.
#[derive(Clone, Copy, Debug, PartialEq, Eq, Structural)]
pub struct AddressNotAligned;

/// Error occurred when reading the frame out of a page-table entry.
#[derive(Clone, Copy, Debug, PartialEq, Eq, Structural)]
pub enum FrameError {
    /// The entry has the present flag clear: nothing is mapped.
    FrameNotPresent,
    /// The entry maps a huge page, which this core does not model.
    HugePage,
}

/// Page size for CPU pages.
pub trait PageSize {
    /// The size in bytes.
    spec fn spec_size() -> u64;

    /// The size is a power of two and no larger than the architectural
    /// physical-address space.
    proof fn size_properties()
        ensures
            is_pow2(Self::spec_size()),
            Self::spec_size() <= PHYSICAL_ADDRESS_LIMIT,
    ;

    fn size() -> (r: u64)
        ensures
            r == Self::spec_size(),
    ;
}

/// The standard 4 KiB page.
#[derive(Clone, Copy, Debug, PartialEq, Eq, Structural)]
pub struct Size4KiB;

impl PageSize for Size4KiB {
    open spec fn spec_size() -> u64 {
        4096
    }

    proof fn size_properties() {
        assert(4096u64 & 4095u64 == 0) by (bit_vector);
    }

    fn size() -> u64 {
        4096
    }
}

/// A physical address known to be aligned to the page size `S`.
#[derive(Debug, PartialEq, Eq)]
pub struct PhysicalFrame<S: PageSize = Size4KiB> {
    address: PhysicalAddress,
    size: PhantomData<S>,
}

impl<S: PageSize> View for PhysicalFrame<S> {
    type V = u64;

    closed spec fn view(&self) -> u64 {
        self.address@
    }
}

impl<S: PageSize> PhysicalFrame<S> {
    /// The start address respects the architectural bit width and is a
    /// multiple of the frame size.
    pub open spec fn wf(self) -> bool {
        self@ < PHYSICAL_ADDRESS_LIMIT && self@ % S::spec_size() == 0
    }

    /// The frame that starts exactly at `address`; fails if and only if
    /// `address` is not a multiple of the page size.
    pub fn start_with(address: PhysicalAddress) -> (r: Result<Self, AddressNotAligned>)
        requires
            address.wf(),
        ensures
            address@ % S::spec_size() == 0 ==> (r matches Ok(f) && f@ == address@ && f.wf()),
            address@ % S::spec_size() != 0 ==> r is Err,
    {
        proof {
            S::size_properties();
        }
        if !address.is_aligned(S::size()) {
            return Err(AddressNotAligned);
        }
        Ok(Self { address, size: PhantomData })
    }

    /// The address the frame starts at.
    pub fn start_address(&self) -> (r: PhysicalAddress)
        ensures
            r@ == self@,
    {
        self.address
    }

    /// The frame that contains `address`: its start is `address`
    /// rounded down to the page size.
    pub fn containing_address(address: PhysicalAddress) -> (r: Self)
        requires
            address.wf(),
        ensures
            r@ == spec_align_down(address@, S::spec_size()),
            r.wf(),
    {
        proof {
            S::size_properties();
            crate::addr::lemma_align_down(address@, S::spec_size());
        }
        Self { address: address.align_down(S::size()), size: PhantomData }
    }
}

} // verus!
