//! The kernel heap: a lazily-initialized, growable free-list region.
//!
//! The heap starts uninitialized; `init` hands it a virtual range that
//! the caller guarantees is already mapped and writable. Allocation is
//! first-fit over the free list; when no block fits, the heap grows by
//! a fixed increment and retries once. Growth never passes the end of
//! the mapped region the heap was initialized with: extending past it
//! would hand out memory that nothing backs.
//!
//! This type tracks the region arithmetic; writing to the managed
//! memory is the caller's side of the contract, as is serializing
//! concurrent callers behind one lock. Freed blocks go back into the
//! list as regions of their own: neighbors are not merged, so a freed
//! block satisfies later requests up to its own size.

use vstd::prelude::*;
use crate::addr::{is_pow2, lemma_align_down, lemma_align_up, spec_align_up};

verus! {

/// Fixed increment by which an exhausted heap grows, in bytes.
pub const HEAP_GROWTH: u64 = 0x1_0000;

/// Why the heap refused a request.
#[derive(Clone, Copy, Debug, PartialEq, Eq, Structural)]
pub enum HeapError {
    /// `init` has never been called; callers must treat this as fatal.
    Uninitialized,
    /// The range handed to `init` was empty or inverted.
    InvalidRange,
    /// No free block fits and the mapped region allows no more growth.
    OutOfMemory,
}

/// One region of free bytes: `size` bytes from `start`.
#[derive(Clone, Copy, Debug, PartialEq, Eq, Structural)]
pub struct FreeBlock {
    pub start: u64,
    pub size: u64,
}

/// The mathematical state of an initialized heap.
pub struct HeapModel {
    /// First byte of the heap region.
    pub bottom: u64,
    /// First byte past the part of the region handed to the free list.
    pub top: u64,
    /// First byte past the mapped region; growth never passes it.
    pub mapped_end: u64,
    /// The free regions, ordered by start and pairwise disjoint.
    pub holes: Seq<FreeBlock>,
}

/// The free list is ordered, disjoint, non-empty blockwise, and inside
/// the region.
pub open spec fn model_wf(m: HeapModel) -> bool {
    &&& m.bottom <= m.top <= m.mapped_end
    &&& forall|i: int|
        0 <= i < m.holes.len() ==> (#[trigger] m.holes[i]).size > 0 && m.bottom
            <= m.holes[i].start && m.holes[i].start + m.holes[i].size <= m.top
    &&& forall|i: int|
        0 <= i && i + 1 < m.holes.len() ==> (#[trigger] m.holes[i]).start + m.holes[i].size
            <= m.holes[i + 1].start
}

/// A block of `size` bytes at `addr`, aligned to `align`, fits in `h`.
pub open spec fn spec_fits(h: FreeBlock, size: u64, align: u64) -> bool
    recommends
        is_pow2(align),
{
    spec_align_up(h.start, align) + size <= h.start + h.size
}

/// First-fit placement: the index of the first hole that can hold the
/// request, with the aligned address the block would get there.
pub open spec fn spec_first_fit(holes: Seq<FreeBlock>, size: u64, align: u64) -> Option<
    (int, u64),
>
    recommends
        is_pow2(align),
    decreases holes.len(),
{
    if holes.len() == 0 {
        None
    } else if spec_fits(holes[0], size, align) {
        Some((0int, spec_align_up(holes[0].start, align) as u64))
    } else {
        match spec_first_fit(holes.skip(1), size, align) {
            None => None,
            Some(p) => Some((p.0 + 1, p.1)),
        }
    }
}

/// Take `size` bytes at `addr` out of hole `i`: what is left of the
/// hole in front of and behind the block stays free.
pub open spec fn spec_carve(holes: Seq<FreeBlock>, i: int, addr: u64, size: u64) -> Seq<
    FreeBlock,
>
    recommends
        0 <= i < holes.len(),
{
    let h = holes[i];
    let front: Seq<FreeBlock> = if addr > h.start {
        seq![FreeBlock { start: h.start, size: (addr - h.start) as u64 }]
    } else {
        Seq::empty()
    };
    let back: Seq<FreeBlock> = if addr + size < h.start + h.size {
        seq![
            FreeBlock {
                start: (addr + size) as u64,
                size: ((h.start + h.size) - (addr + size)) as u64,
            },
        ]
    } else {
        Seq::empty()
    };
    holes.take(i) + front + back + holes.skip(i + 1)
}

/// How many bytes an exhausted heap may grow by: the fixed increment,
/// capped by what the mapped region still has past the current top.
pub open spec fn spec_growth(m: HeapModel) -> u64 {
    if m.mapped_end - m.top >= HEAP_GROWTH {
        HEAP_GROWTH
    } else {
        (m.mapped_end - m.top) as u64
    }
}

/// What one `allocate` call does to an initialized heap: first-fit
/// placement; on exhaustion one growth step, bounded by the mapped
/// region, and one retry.
pub open spec fn spec_allocate(m: HeapModel, size: u64, align: u64) -> (HeapModel, Result<
    u64,
    HeapError,
>)
    recommends
        is_pow2(align),
{
    match spec_first_fit(m.holes, size, align) {
        Some((i, a)) => (
            HeapModel { holes: spec_carve(m.holes, i, a, size), ..m },
            Ok(a),
        ),
        None => {
            let g = spec_growth(m);
            if g == 0 {
                (m, Err(HeapError::OutOfMemory))
            } else {
                let m1 = HeapModel {
                    top: (m.top + g) as u64,
                    holes: m.holes.push(FreeBlock { start: m.top, size: g }),
                    ..m
                };
                match spec_first_fit(m1.holes, size, align) {
                    Some((i, a)) => (
                        HeapModel { holes: spec_carve(m1.holes, i, a, size), ..m1 },
                        Ok(a),
                    ),
                    None => (m1, Err(HeapError::OutOfMemory)),
                }
            }
        },
    }
}

/// The range `[addr, addr + size)` overlaps no free block.
pub open spec fn disjoint_from_holes(holes: Seq<FreeBlock>, addr: u64, size: u64) -> bool {
    forall|j: int|
        0 <= j < holes.len() ==> addr + size <= (#[trigger] holes[j]).start || holes[j].start
            + holes[j].size <= addr
}

/// Where a freed block goes back in: before the first hole that does
/// not start below it.
pub open spec fn spec_insert_block(holes: Seq<FreeBlock>, b: FreeBlock) -> Seq<FreeBlock>
    decreases holes.len(),
{
    if holes.len() == 0 {
        seq![b]
    } else if b.start <= holes[0].start {
        seq![b] + holes
    } else {
        seq![holes[0]] + spec_insert_block(holes.skip(1), b)
    }
}

proof fn lemma_first_fit_found(holes: Seq<FreeBlock>, i: int, size: u64, align: u64)
    requires
        0 <= i < holes.len(),
        spec_fits(holes[i], size, align),
        forall|j: int| 0 <= j < i ==> !spec_fits(#[trigger] holes[j], size, align),
    ensures
        spec_first_fit(holes, size, align) == Some(
            (i, spec_align_up(holes[i].start, align) as u64),
        ),
    decreases i,
{
    if i > 0 {
        lemma_first_fit_found(holes.skip(1), i - 1, size, align);
    }
}

proof fn lemma_first_fit_none(holes: Seq<FreeBlock>, size: u64, align: u64)
    requires
        forall|j: int| 0 <= j < holes.len() ==> !spec_fits(#[trigger] holes[j], size, align),
    ensures
        spec_first_fit(holes, size, align) is None,
    decreases holes.len(),
{
    if holes.len() > 0 {
        lemma_first_fit_none(holes.skip(1), size, align);
    }
}

proof fn lemma_first_fit_ok(holes: Seq<FreeBlock>, size: u64, align: u64)
    requires
        is_pow2(align),
        spec_first_fit(holes, size, align) is Some,
        forall|j: int| 0 <= j < holes.len() ==> (#[trigger] holes[j]).start + holes[j].size
            <= u64::MAX,
    ensures
        spec_first_fit(holes, size, align) matches Some((i, a)) ==> 0 <= i < holes.len()
            && spec_fits(holes[i], size, align) && a == spec_align_up(holes[i].start, align)
            && holes[i].start <= a && a + size <= holes[i].start + holes[i].size && a % align
            == 0,
    decreases holes.len(),
{
    if holes.len() == 0 {
    } else if spec_fits(holes[0], size, align) {
        lemma_align_up(holes[0].start, align);
    } else {
        lemma_first_fit_ok(holes.skip(1), size, align);
        match spec_first_fit(holes.skip(1), size, align) {
            Some(p) => {
                assert(holes[p.0 + 1] == holes.skip(1)[p.0]);
            },
            None => {},
        }
    }
}

proof fn lemma_carve_wf(m: HeapModel, i: int, addr: u64, size: u64)
    requires
        model_wf(m),
        0 <= i < m.holes.len(),
        m.holes[i].start <= addr,
        addr + size <= m.holes[i].start + m.holes[i].size,
    ensures
        model_wf(HeapModel { holes: spec_carve(m.holes, i, addr, size), ..m }),
{
    let h = m.holes[i];
    let c = spec_carve(m.holes, i, addr, size);
    let front: Seq<FreeBlock> = if addr > h.start {
        seq![FreeBlock { start: h.start, size: (addr - h.start) as u64 }]
    } else {
        Seq::empty()
    };
    let back: Seq<FreeBlock> = if addr + size < h.start + h.size {
        seq![
            FreeBlock {
                start: (addr + size) as u64,
                size: ((h.start + h.size) - (addr + size)) as u64,
            },
        ]
    } else {
        Seq::empty()
    };
    let e = front.len() + back.len();
    assert(c == m.holes.take(i) + front + back + m.holes.skip(i + 1));
    assert forall|j: int| 0 <= j < c.len() implies (#[trigger] c[j]).size > 0 && m.bottom
        <= c[j].start && c[j].start + c[j].size <= m.top by {
        if j < i {
            assert(c[j] == m.holes[j]);
        } else if j < i + e {
            assert(c[j] == (front + back)[j - i]);
        } else {
            assert(c[j] == m.holes[j - e + 1]);
        }
    }
    assert forall|j: int| 0 <= j && j + 1 < c.len() implies (#[trigger] c[j]).start + c[j].size
        <= c[j + 1].start by {
        if j + 1 < i {
            assert(c[j] == m.holes[j] && c[j + 1] == m.holes[j + 1]);
        } else if j + 1 == i {
            assert(c[j] == m.holes[j]);
            if e > 0 {
                assert(c[j + 1] == (front + back)[0]);
                assert(c[j + 1].start >= h.start);
            } else {
                assert(c[j + 1] == m.holes[i + 1]);
            }
        } else if j + 1 < i + e {
            assert(c[j] == (front + back)[j - i] && c[j + 1] == (front + back)[j + 1 - i]);
        } else if j + 1 == i + e {
            // c[j] is the last of front/back, or the hole before i when
            // nothing of the hole is left; c[j + 1] is m.holes[i + 1].
            if e > 0 {
                assert(c[j] == (front + back)[j - i]);
                assert(c[j].start + c[j].size <= h.start + h.size);
            } else {
                assert(c[j] == m.holes[j]);
            }
            assert(c[j + 1] == m.holes[i + 1]);
        } else {
            assert(c[j] == m.holes[j - e + 1] && c[j + 1] == m.holes[j + 2 - e]);
        }
    }
}

proof fn lemma_insert_block_at(holes: Seq<FreeBlock>, b: FreeBlock, i: int)
    requires
        0 <= i <= holes.len(),
        forall|j: int| 0 <= j < i ==> (#[trigger] holes[j]).start < b.start,
        i == holes.len() || b.start <= holes[i].start,
    ensures
        spec_insert_block(holes, b) == holes.take(i) + seq![b] + holes.skip(i),
    decreases i,
{
    if i == 0 {
        assert(holes.take(0) + seq![b] + holes.skip(0) =~= seq![b] + holes);
        if holes.len() == 0 {
            assert(seq![b] + holes =~= seq![b]);
        }
    } else {
        lemma_insert_block_at(holes.skip(1), b, i - 1);
        assert(holes.skip(1).take(i - 1) =~= holes.take(i).skip(1));
        assert(seq![holes[0]] + (holes.skip(1).take(i - 1) + seq![b] + holes.skip(1).skip(i
            - 1)) =~= holes.take(i) + seq![b] + holes.skip(i));
    }
}

/// The executable free-list state; its meaning is the `HeapModel` view.
#[derive(Debug)]
pub struct FreeListHeap {
    bottom: u64,
    top: u64,
    mapped_end: u64,
    holes: Vec<FreeBlock>,
}

impl View for FreeListHeap {
    type V = HeapModel;

    closed spec fn view(&self) -> HeapModel {
        HeapModel {
            bottom: self.bottom,
            top: self.top,
            mapped_end: self.mapped_end,
            holes: self.holes@,
        }
    }
}

impl FreeListHeap {
    pub open spec fn wf(self) -> bool {
        model_wf(self@)
    }

    /// A heap whose free list is the whole of `[start, end)` and whose
    /// growth bound is `mapped_end`.
    pub fn new(start: u64, end: u64, mapped_end: u64) -> (r: Self)
        requires
            start < end <= mapped_end,
        ensures
            r.wf(),
            r@ == (HeapModel {
                bottom: start,
                top: end,
                mapped_end,
                holes: seq![FreeBlock { start, size: (end - start) as u64 }],
            }),
    {
        let mut holes: Vec<FreeBlock> = Vec::new();
        holes.push(FreeBlock { start, size: end - start });
        let r = FreeListHeap { bottom: start, top: end, mapped_end, holes };
        proof {
            assert(r@.holes =~= seq![FreeBlock { start, size: (end - start) as u64 }]);
        }
        r
    }

    /// Bytes between the bottom of the region and the current top.
    pub fn size(&self) -> (r: u64)
        requires
            self.wf(),
        ensures
            r == self@.top - self@.bottom,
    {
        self.top - self.bottom
    }

    /// The first hole that can hold `size` bytes at alignment `align`,
    /// with the address the block would start at.
    fn find_fit(&self, size: u64, align: u64) -> (r: Option<(usize, u64)>)
        requires
            self.wf(),
            is_pow2(align),
        ensures
            match r {
                Some(p) => spec_first_fit(self@.holes, size, align) == Some(
                    (p.0 as int, p.1),
                ),
                None => spec_first_fit(self@.holes, size, align) is None,
            },
    {
        let n = self.holes.len();
        let mut i: usize = 0;
        while i < n
            invariant
                self.wf(),
                is_pow2(align),
                n == self.holes@.len(),
                i <= n,
                forall|j: int| 0 <= j < i ==> !spec_fits(#[trigger] self.holes@[j], size, align),
            decreases n - i,
        {
            let h = self.holes[i];
            let hend: u64 = h.start + h.size;
            let rem: u64 = h.start % align;
            proof {
                lemma_align_down(h.start, align);
                lemma_align_up(h.start, align);
            }
            if rem == 0 {
                if size <= h.size {
                    proof {
                        lemma_first_fit_found(self.holes@, i as int, size, align);
                    }
                    return Some((i, h.start));
                }
            } else {
                let pad: u64 = align - rem;
                if h.start <= u64::MAX - pad {
                    let cand: u64 = h.start + pad;
                    assert(cand == spec_align_up(h.start, align));
                    if cand <= hend && size <= hend - cand {
                        proof {
                            lemma_first_fit_found(self.holes@, i as int, size, align);
                        }
                        return Some((i, cand));
                    }
                } else {
                    assert(spec_align_up(h.start, align) > u64::MAX);
                    assert(!spec_fits(h, size, align));
                }
            }
            i = i + 1;
        }
        proof {
            lemma_first_fit_none(self.holes@, size, align);
        }
        None
    }

    /// Take `size` bytes at `addr` out of hole `i`.
    fn carve_at(&mut self, i: usize, addr: u64, size: u64)
        requires
            old(self).wf(),
            i < old(self)@.holes.len(),
            old(self)@.holes[i as int].start <= addr,
            addr + size <= old(self)@.holes[i as int].start + old(self)@.holes[i as int].size,
        ensures
            final(self).wf(),
            final(self)@.holes == spec_carve(old(self)@.holes, i as int, addr, size),
            final(self)@.bottom == old(self)@.bottom,
            final(self)@.top == old(self)@.top,
            final(self)@.mapped_end == old(self)@.mapped_end,
    {
        let ghost m0 = self@;
        let h = self.holes[i];
        let hend: u64 = h.start + h.size;
        let back_start: u64 = addr + size;
        self.holes.remove(i);
        if back_start < hend {
            self.holes.insert(i, FreeBlock { start: back_start, size: hend - back_start });
        }
        if addr > h.start {
            self.holes.insert(i, FreeBlock { start: h.start, size: addr - h.start });
        }
        proof {
            assert(self@.holes =~= spec_carve(m0.holes, i as int, addr, size));
            lemma_carve_wf(m0, i as int, addr, size);
        }
    }

    /// First-fit allocation with one bounded growth step and one retry,
    /// exactly as `spec_allocate` states it.
    #[verifier::rlimit(100)]
    pub fn allocate(&mut self, size: u64, align: u64) -> (r: Result<u64, HeapError>)
        requires
            old(self).wf(),
            is_pow2(align),
            size > 0,
        ensures
            final(self).wf(),
            final(self)@ == spec_allocate(old(self)@, size, align).0,
            r == spec_allocate(old(self)@, size, align).1,
            final(self)@.bottom == old(self)@.bottom,
            final(self)@.mapped_end == old(self)@.mapped_end,
            r matches Ok(a) ==> a % align == 0 && old(self)@.bottom <= a && a + size <= final(self)@.top,
    {
        let ghost m0 = self@;
        match self.find_fit(size, align) {
            Some(p) => {
                proof {
                    lemma_first_fit_ok(m0.holes, size, align);
                }
                self.carve_at(p.0, p.1, size);
                Ok(p.1)
            },
            None => {
                let avail: u64 = self.mapped_end - self.top;
                let g: u64 = if avail >= HEAP_GROWTH {
                    HEAP_GROWTH
                } else {
                    avail
                };
                proof {
                    assert(g == spec_growth(m0));
                }
                if g == 0 {
                    return Err(HeapError::OutOfMemory);
                }
                let block = FreeBlock { start: self.top, size: g };
                self.holes.push(block);
                self.top = self.top + g;
                let ghost m1 = self@;
                proof {
                    assert(m1.holes == m0.holes.push(block));
                    assert forall|j: int| 0 <= j < m1.holes.len() implies (#[trigger] m1.holes[
                        j]).size > 0 && m1.bottom <= m1.holes[j].start && m1.holes[j].start
                        + m1.holes[j].size <= m1.top by {
                        if j < m0.holes.len() {
                            assert(m1.holes[j] == m0.holes[j]);
                        }
                    }
                    assert forall|j: int| 0 <= j && j + 1 < m1.holes.len() implies (
                    #[trigger] m1.holes[j]).start + m1.holes[j].size <= m1.holes[j + 1].start by {
                        assert(m1.holes[j] == m0.holes[j]);
                        if j + 1 < m0.holes.len() {
                            assert(m1.holes[j + 1] == m0.holes[j + 1]);
                        }
                    }
                    assert(self.wf());
                }
                match self.find_fit(size, align) {
                    Some(p) => {
                        proof {
                            lemma_first_fit_ok(m1.holes, size, align);
                        }
                        self.carve_at(p.0, p.1, size);
                        Ok(p.1)
                    },
                    None => Err(HeapError::OutOfMemory),
                }
            },
        }
    }

    /// Return the block `[addr, addr + size)` to the free list.
    pub fn deallocate(&mut self, addr: u64, size: u64)
        requires
            old(self).wf(),
            size > 0,
            old(self)@.bottom <= addr,
            addr + size <= old(self)@.top,
            disjoint_from_holes(old(self)@.holes, addr, size),
        ensures
            final(self).wf(),
            final(self)@.holes == spec_insert_block(
                old(self)@.holes,
                FreeBlock { start: addr, size },
            ),
            final(self)@.bottom == old(self)@.bottom,
            final(self)@.top == old(self)@.top,
            final(self)@.mapped_end == old(self)@.mapped_end,
    {
        let ghost m0 = self@;
        let b = FreeBlock { start: addr, size };
        let n = self.holes.len();
        let mut i: usize = 0;
        while i < n && self.holes[i].start < addr
            invariant
                self.wf(),
                self@ == m0,
                n == self.holes@.len(),
                i <= n,
                forall|j: int| 0 <= j < i ==> (#[trigger] self.holes@[j]).start < addr,
            decreases n - i,
        {
            i = i + 1;
        }
        proof {
            lemma_insert_block_at(m0.holes, b, i as int);
        }
        self.holes.insert(i, b);
        proof {
            assert(self@.holes =~= m0.holes.take(i as int) + seq![b] + m0.holes.skip(i as int));
            let c = self@.holes;
            assert forall|j: int| 0 <= j < c.len() implies (#[trigger] c[j]).size > 0
                && m0.bottom <= c[j].start && c[j].start + c[j].size <= m0.top by {
                if j < i {
                    assert(c[j] == m0.holes[j]);
                } else if j > i {
                    assert(c[j] == m0.holes[j - 1]);
                }
            }
            assert forall|j: int| 0 <= j && j + 1 < c.len() implies (#[trigger] c[j]).start
                + c[j].size <= c[j + 1].start by {
                if j + 1 < i {
                    assert(c[j] == m0.holes[j] && c[j + 1] == m0.holes[j + 1]);
                } else if j + 1 == i {
                    assert(c[j] == m0.holes[j] && c[j + 1] == b);
                    assert(m0.holes[j].start < addr);
                    assert(addr + size <= m0.holes[j].start || m0.holes[j].start + m0.holes[
                        j].size <= addr);
                } else if j == i {
                    if j + 1 < c.len() {
                        assert(c[j] == b && c[j + 1] == m0.holes[j]);
                        assert(addr <= m0.holes[j].start);
                        assert(addr + size <= m0.holes[j].start || m0.holes[j].start
                            + m0.holes[j].size <= addr);
                    }
                } else {
                    assert(c[j] == m0.holes[j - 1] && c[j + 1] == m0.holes[j]);
                }
            }
        }
    }
}

/// The process-wide heap: uninitialized until `init`, then initialized
/// for the kernel's lifetime.
#[derive(Debug)]
pub struct KernelHeap {
    heap: Option<FreeListHeap>,
}

impl KernelHeap {
    /// The free-list state, or nothing while uninitialized.
    pub closed spec fn model(self) -> Option<HeapModel> {
        match self.heap {
            Some(h) => Some(h@),
            None => None,
        }
    }

    pub open spec fn wf(self) -> bool {
        self.model() matches Some(m) ==> model_wf(m)
    }

    /// A heap on which no `init` has run yet.
    pub fn new() -> (r: Self)
        ensures
            r.model() is None,
            r.wf(),
    {
        KernelHeap { heap: None }
    }

    /// Hand the heap the mapped, writable range `[start, end)`. The
    /// whole range goes to the free list and also bounds later growth,
    /// so the heap never reaches past what the caller mapped.
    pub fn init(&mut self, start: u64, end: u64) -> (r: Result<(), HeapError>)
        requires
            old(self).wf(),
        ensures
            final(self).wf(),
            end <= start ==> r == Err::<(), HeapError>(HeapError::InvalidRange) && final(self).model() == old(self).model(),
            end > start ==> r == Ok::<(), HeapError>(()) && final(self).model() == Some(
                HeapModel {
                    bottom: start,
                    top: end,
                    mapped_end: end,
                    holes: seq![FreeBlock { start, size: (end - start) as u64 }],
                },
            ),
    {
        self.init_with_mapped_region(start, end, end)
    }

    /// Like `init`, but the caller states that the mapped region runs
    /// on to `mapped_end`: the free list starts over `[start, end)` and
    /// growth may continue up to `mapped_end`.
    pub fn init_with_mapped_region(&mut self, start: u64, end: u64, mapped_end: u64) -> (r:
        Result<(), HeapError>)
        requires
            old(self).wf(),
        ensures
            final(self).wf(),
            !(start < end && end <= mapped_end) ==> r == Err::<(), HeapError>(
                HeapError::InvalidRange,
            ) && final(self).model() == old(self).model(),
            start < end && end <= mapped_end ==> r == Ok::<(), HeapError>(()) && final(self).model() == Some(
                HeapModel {
                    bottom: start,
                    top: end,
                    mapped_end,
                    holes: seq![FreeBlock { start, size: (end - start) as u64 }],
                },
            ),
    {
        if start < end && end <= mapped_end {
            self.heap = Some(FreeListHeap::new(start, end, mapped_end));
            Ok(())
        } else {
            Err(HeapError::InvalidRange)
        }
    }

    /// Allocate `size` bytes at alignment `align`. Fatal while the heap
    /// is uninitialized: the caller gets `Uninitialized` and must halt,
    /// as a kernel cannot run without its allocator.
    pub fn allocate(&mut self, size: u64, align: u64) -> (r: Result<u64, HeapError>)
        requires
            old(self).wf(),
            is_pow2(align),
            size > 0,
        ensures
            final(self).wf(),
            old(self).model() is None ==> r == Err::<u64, HeapError>(HeapError::Uninitialized)
                && final(self).model() is None,
            old(self).model() matches Some(m) ==> final(self).model() == Some(
                spec_allocate(m, size, align).0,
            ) && r == spec_allocate(m, size, align).1,
            old(self).model() matches Some(m) ==> (r matches Ok(a) ==> a % align == 0
                && m.bottom <= a && a + size <= spec_allocate(m, size, align).0.top),
    {
        match &mut self.heap {
            None => Err(HeapError::Uninitialized),
            Some(h) => h.allocate(size, align),
        }
    }

    /// Return a block to the free list. Fatal while uninitialized.
    pub fn deallocate(&mut self, addr: u64, size: u64, _align: u64) -> (r: Result<
        (),
        HeapError,
    >)
        requires
            old(self).wf(),
            old(self).model() matches Some(m) ==> size > 0 && m.bottom <= addr && addr + size
                <= m.top && disjoint_from_holes(m.holes, addr, size),
        ensures
            final(self).wf(),
            old(self).model() is None ==> r == Err::<(), HeapError>(HeapError::Uninitialized)
                && final(self).model() is None,
            old(self).model() matches Some(m) ==> r == Ok::<(), HeapError>(()) && final(self).model() == Some(
                HeapModel {
                    holes: spec_insert_block(m.holes, FreeBlock { start: addr, size }),
                    ..m
                },
            ),
    {
        match &mut self.heap {
            None => Err(HeapError::Uninitialized),
            Some(h) => {
                h.deallocate(addr, size);
                Ok(())
            },
        }
    }

    /// Bytes currently under the free list's management; zero while
    /// uninitialized.
    pub fn size(&self) -> (r: u64)
        requires
            self.wf(),
        ensures
            self.model() is None ==> r == 0,
            self.model() matches Some(m) ==> r == m.top - m.bottom,
    {
        match &self.heap {
            None => 0,
            Some(h) => h.size(),
        }
    }
}

/// A fixed-size secondary allocator: an extension point the kernel
/// names but does not implement yet.
#[derive(Debug)]
pub struct SlabAllocator;

} // verus!
