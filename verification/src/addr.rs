//! Typed physical and virtual addresses.
//!
//! A physical address keeps its bits above the architectural 52-bit
//! physical-address width zero; a virtual address is canonical: its top
//! sixteen bits are copies of bit 47.

use vstd::prelude::*;

verus! {

/// First value that no longer fits in the architectural 52-bit
/// physical-address width.
pub const PHYSICAL_ADDRESS_LIMIT: u64 = 0x0010_0000_0000_0000;

/// `k` is a power of two.
pub open spec fn is_pow2(k: u64) -> bool {
    k != 0 && k & ((k - 1) as u64) == 0
}

/// Largest multiple of `k` that is at most `a`.
pub open spec fn spec_align_down(a: u64, k: u64) -> u64
    recommends
        is_pow2(k),
{
    a & !((k - 1) as u64)
}

/// Smallest multiple of `k` that is at least `a`, as a mathematical
/// integer, so that the value is meaningful even where it would not fit
/// in a machine word.
pub open spec fn spec_align_up(a: u64, k: u64) -> int
    recommends
        is_pow2(k),
{
    if a % k == 0 {
        a as int
    } else {
        spec_align_down(a, k) + k
    }
}

/// Every power of two in a machine word is an exact power of its bit
/// position.
proof fn lemma_pow2_exponent(k: u64) -> (n: nat)
    requires
        is_pow2(k),
    ensures
        n < 64,
        k == vstd::arithmetic::power2::pow2(n),
    decreases k,
{
    if k == 1 {
        assert(vstd::arithmetic::power2::pow2(0) == 1) by {
            vstd::arithmetic::power2::lemma2_to64();
        }
        0
    } else {
        let h = k / 2;
        assert(h != 0 && h & ((h - 1) as u64) == 0 && k == 2 * h) by (bit_vector)
            requires
                k != 0 && k & ((k - 1) as u64) == 0 && k != 1 && h == k / 2,
        ;
        let m = lemma_pow2_exponent(h);
        assert(vstd::arithmetic::power2::pow2(m + 1) == 2 * vstd::arithmetic::power2::pow2(m))
            by {
            vstd::arithmetic::power2::lemma_pow2_unfold(m + 1);
        }
        assert(m + 1 < 64) by {
            if m + 1 >= 64 {
                assert(m == 63);
                assert(vstd::arithmetic::power2::pow2(63) == 0x8000000000000000) by {
                    vstd::arithmetic::power2::lemma2_to64_rest();
                }
            }
        }
        m + 1
    }
}

/// Taking a value modulo a power of two is the same as masking with the
/// low bits of that power.
pub proof fn lemma_pow2_mask_is_mod(x: u64, k: u64)
    requires
        is_pow2(k),
    ensures
        x % k == x & ((k - 1) as u64),
{
    let n = lemma_pow2_exponent(k);
    assert(vstd::bits::low_bits_mask(n) == k - 1);
    vstd::bits::lemma_u64_low_bits_mask_is_mod(x, n);
}

/// What rounding down to a power of two does: the result is aligned, is
/// at most `a`, and `a` lies strictly below the next multiple.
pub proof fn lemma_align_down(a: u64, k: u64)
    requires
        is_pow2(k),
    ensures
        spec_align_down(a, k) % k == 0,
        spec_align_down(a, k) <= a,
        a < spec_align_down(a, k) + k,
        spec_align_down(a, k) == a <==> a % k == 0,
        spec_align_down(a, k) == a - a % k,
{
    let d = a & !((k - 1) as u64);
    assert((d & ((k - 1) as u64) == 0) && d <= a && a < d + k && (d == a <==> a & ((k - 1)
        as u64) == 0) && d == a - (a & ((k - 1) as u64))) by (bit_vector)
        requires
            k != 0 && k & ((k - 1) as u64) == 0 && d == (a & !((k - 1) as u64)),
    ;
    lemma_pow2_mask_is_mod(d, k);
    lemma_pow2_mask_is_mod(a, k);
}

/// What rounding up to a power of two does, stated over `spec_align_up`.
pub proof fn lemma_align_up(a: u64, k: u64)
    requires
        is_pow2(k),
    ensures
        spec_align_up(a, k) % (k as int) == 0,
        a <= spec_align_up(a, k) < a + k,
        spec_align_up(a, k) == a <==> a % k == 0,
{
    lemma_align_down(a, k);
    if a % k != 0 {
        let d = spec_align_down(a, k);
        assert(d % k == 0 && d < a < d + k);
        assert((d + k) % (k as int) == 0) by {
            vstd::arithmetic::div_mod::lemma_mod_add_multiples_vanish(d as int, k as int);
        }
    }
}

/// `align_up` undoes `align_down` exactly on the addresses that are
/// already aligned.
pub proof fn lemma_align_up_undoes_align_down(a: u64, k: u64)
    requires
        is_pow2(k),
    ensures
        spec_align_up(spec_align_down(a, k), k) == a <==> a % k == 0,
{
    lemma_align_down(a, k);
    lemma_align_up(spec_align_down(a, k), k);
}

/// Round `address` down to the previous multiple of `align`.
pub fn align_down(address: u64, align: u64) -> (r: u64)
    requires
        is_pow2(align),
    ensures
        r == spec_align_down(address, align),
        r % align == 0,
        r <= address < r + align,
        r == address <==> address % align == 0,
{
    proof {
        lemma_align_down(address, align);
    }
    address & !(align - 1)
}

/// Round `address` up to the next multiple of `align`. The rounded value
/// must still fit in a machine word.
pub fn align_up(address: u64, align: u64) -> (r: u64)
    requires
        is_pow2(align),
        spec_align_up(address, align) <= u64::MAX,
    ensures
        r == spec_align_up(address, align),
        r % align == 0,
        address <= r < address + align,
        r == address <==> address % align == 0,
{
    proof {
        lemma_align_down(address, align);
        lemma_align_up(address, align);
    }
    let down: u64 = address & !(align - 1);
    if down == address {
        address
    } else {
        down + align
    }
}

/// A raw physical memory address.
///
/// Only the 52 lower bits of a physical address can be used; the top
/// twelve bits are zero.
#[derive(Clone, Copy, Debug, PartialEq, Eq, Structural, PartialOrd, Ord, Hash)]
pub struct PhysicalAddress {
    raw: u64,
}

impl View for PhysicalAddress {
    type V = u64;

    closed spec fn view(&self) -> u64 {
        self.raw
    }
}

impl PhysicalAddress {
    /// The address respects the architectural bit width.
    pub open spec fn wf(self) -> bool {
        self@ < PHYSICAL_ADDRESS_LIMIT
    }

    pub fn new(address: u64) -> (r: Self)
        requires
            address < PHYSICAL_ADDRESS_LIMIT,
        ensures
            r@ == address,
    {
        PhysicalAddress { raw: address }
    }

    pub fn as_raw(&self) -> (r: u64)
        ensures
            r == self@,
    {
        self.raw
    }

    pub fn align_down(self, align: u64) -> (r: Self)
        requires
            is_pow2(align),
            self.wf(),
        ensures
            r@ == spec_align_down(self@, align),
            r.wf(),
    {
        proof {
            lemma_align_down(self.raw, align);
        }
        PhysicalAddress { raw: align_down(self.raw, align) }
    }

    pub fn align_up(self, align: u64) -> (r: Self)
        requires
            is_pow2(align),
            self.wf(),
            spec_align_up(self@, align) < PHYSICAL_ADDRESS_LIMIT,
        ensures
            r@ == spec_align_up(self@, align),
            r.wf(),
    {
        PhysicalAddress { raw: align_up(self.raw, align) }
    }

    pub fn is_aligned(self, align: u64) -> (r: bool)
        requires
            is_pow2(align),
            self.wf(),
        ensures
            r == (self@ % align == 0),
    {
        proof {
            lemma_align_down(self.raw, align);
        }
        self.align_down(align).as_raw() == self.raw
    }

    /// The address `rhs` bytes further on; fails explicitly where the
    /// sum would leave the architectural bit width, rather than wrap.
    pub fn checked_add(self, rhs: u64) -> (r: Option<Self>)
        requires
            self.wf(),
        ensures
            self@ + rhs < PHYSICAL_ADDRESS_LIMIT ==> (r matches Some(p) && p@ == self@ + rhs
                && p.wf()),
            self@ + rhs >= PHYSICAL_ADDRESS_LIMIT ==> r is None,
    {
        if rhs < PHYSICAL_ADDRESS_LIMIT && self.raw < PHYSICAL_ADDRESS_LIMIT - rhs {
            Some(PhysicalAddress { raw: self.raw + rhs })
        } else {
            None
        }
    }

    /// The address `rhs` bytes back; fails explicitly on underflow.
    pub fn checked_sub(self, rhs: u64) -> (r: Option<Self>)
        requires
            self.wf(),
        ensures
            rhs <= self@ ==> (r matches Some(p) && p@ == self@ - rhs && p.wf()),
            rhs > self@ ==> r is None,
    {
        if rhs <= self.raw {
            Some(PhysicalAddress { raw: self.raw - rhs })
        } else {
            None
        }
    }

    /// How many bytes `self` lies past `rhs`; fails explicitly where
    /// `rhs` lies higher.
    pub fn checked_diff(self, rhs: Self) -> (r: Option<u64>)
        ensures
            rhs@ <= self@ ==> r == Some((self@ - rhs@) as u64),
            rhs@ > self@ ==> r is None,
    {
        if rhs.raw <= self.raw {
            Some(self.raw - rhs.raw)
        } else {
            None
        }
    }
}

/// `a` is canonical: bits 48 to 63 are copies of bit 47.
pub open spec fn is_canonical(a: u64) -> bool {
    a < 0x0000_8000_0000_0000 || a >= 0xFFFF_8000_0000_0000
}

/// A canonical virtual memory address.
///
/// Only the 48 lower bits of a virtual address carry information; the
/// top sixteen bits are copies of bit 47, the most significant used bit.
#[derive(Clone, Copy, Debug, PartialEq, Eq, Structural, PartialOrd, Ord, Hash)]
pub struct VirtualAddress {
    raw: u64,
}

impl View for VirtualAddress {
    type V = u64;

    closed spec fn view(&self) -> u64 {
        self.raw
    }
}

impl VirtualAddress {
    /// The address is in canonical form.
    pub open spec fn wf(self) -> bool {
        is_canonical(self@)
    }

    pub fn new(address: u64) -> (r: Self)
        requires
            is_canonical(address),
        ensures
            r@ == address,
            r.wf(),
    {
        VirtualAddress { raw: address }
    }

    /// The virtual address that points to zero.
    pub fn zero() -> (r: Self)
        ensures
            r@ == 0,
            r.wf(),
    {
        VirtualAddress { raw: 0 }
    }

    /// True if the virtual address is null.
    pub fn is_null(self) -> (r: bool)
        ensures
            r == (self@ == 0),
    {
        self.raw == 0
    }

    pub fn as_raw(&self) -> (r: u64)
        ensures
            r == self@,
    {
        self.raw
    }

    /// The address `rhs` bytes further on; fails explicitly where the
    /// sum would wrap or land between the canonical halves.
    pub fn checked_add(self, rhs: u64) -> (r: Option<Self>)
        requires
            self.wf(),
        ensures
            self@ + rhs <= u64::MAX && is_canonical((self@ + rhs) as u64) ==> (r matches Some(
                v,
            ) && v@ == self@ + rhs && v.wf()),
            self@ + rhs > u64::MAX || !is_canonical((self@ + rhs) as u64) ==> r is None,
    {
        if rhs <= u64::MAX - self.raw {
            let sum: u64 = self.raw + rhs;
            if sum < 0x0000_8000_0000_0000 || sum >= 0xFFFF_8000_0000_0000 {
                Some(VirtualAddress { raw: sum })
            } else {
                None
            }
        } else {
            None
        }
    }

    /// The address `rhs` bytes back; fails explicitly on underflow and
    /// where the difference lands between the canonical halves.
    pub fn checked_sub(self, rhs: u64) -> (r: Option<Self>)
        requires
            self.wf(),
        ensures
            rhs <= self@ && is_canonical((self@ - rhs) as u64) ==> (r matches Some(v) && v@
                == self@ - rhs && v.wf()),
            rhs > self@ || !is_canonical((self@ - rhs) as u64) ==> r is None,
    {
        if rhs <= self.raw {
            let diff: u64 = self.raw - rhs;
            if diff < 0x0000_8000_0000_0000 || diff >= 0xFFFF_8000_0000_0000 {
                Some(VirtualAddress { raw: diff })
            } else {
                None
            }
        } else {
            None
        }
    }

    /// How many bytes `self` lies past `rhs`; fails explicitly where
    /// `rhs` lies higher.
    pub fn checked_diff(self, rhs: Self) -> (r: Option<u64>)
        ensures
            rhs@ <= self@ ==> r == Some((self@ - rhs@) as u64),
            rhs@ > self@ ==> r is None,
    {
        if rhs.raw <= self.raw {
            Some(self.raw - rhs.raw)
        } else {
            None
        }
    }
}

} // verus!
