//! Core of a small bootstrap kernel, written for verification.
//!
//! The crate models the virtual-memory subsystem of the kernel: typed
//! physical and virtual addresses with their architectural invariants,
//! the four-level page-table representation and its 64-bit entry encoding,
//! alignment-checked physical frames, the hardware page-walk algorithm
//! over an injectable set of visible tables, and the kernel heap with its
//! lazily-initialized, growable free-list region.
//!
//! Hardware access itself (control registers, port I/O, the memory-mapped
//! text buffer) stays outside this crate; the functions here take the
//! values such hardware hands back as plain arguments and are verified
//! for every value of them.

pub mod addr;
pub mod clock;
pub mod cpuid;
pub mod frame;
pub mod heap;
pub mod mapper;
pub mod paging;
pub mod qemu;
pub mod translate;
pub mod vga;
