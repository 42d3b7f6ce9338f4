use vstd::prelude::*;

verus! {

use crate::heterogeneous_stack::align::aligned;
use vstd::arithmetic::div_mod::lemma_add_mod_noop;

/// A heap-backed allocator.
///
/// The allocator hands out aligned byte regions whose sizes are multiples of
/// the alignment unit `align`. It is modelled as a bump allocator over the
/// address range starting at `lo`: fresh allocations never overlap any other
/// allocation, live or dead, which over-approximates the uniqueness the real
/// heap guarantees for live allocations. The set of live allocations is
/// tracked in the ghost map `live`.
pub struct Heap {
    /// The alignment unit every size and address is a multiple of.
    pub align: usize,
    /// The first address the allocator may hand out.
    pub lo: usize,
    /// The next fresh address.
    pub next: usize,
    /// The live allocations, as a map from address to size.
    pub live: Ghost<Map<usize, usize>>,
}

impl Heap {
    /// Well-formedness: addresses stay aligned, every live allocation lies
    /// within `[lo, next)`, and live allocations are pairwise disjoint.
    pub open spec fn wf(self) -> bool {
        &&& self.align >= 1
        &&& aligned(self.lo as int, self.align as int)
        &&& aligned(self.next as int, self.align as int)
        &&& self.lo <= self.next
        &&& forall|a: usize| #[trigger] self.live@.dom().contains(a)
            ==> self.lo <= a && 0 < self.live@[a] && a + self.live@[a] <= self.next
        &&& forall|a1: usize, a2: usize|
            #[trigger] self.live@.dom().contains(a1) && #[trigger] self.live@.dom().contains(a2)
                && a1 != a2 ==> a1 + self.live@[a1] <= a2 || a2 + self.live@[a2] <= a1
    }

    /// Create an allocator serving addresses from `lo` up.
    pub fn new(align: usize, lo: usize) -> (r: Heap)
        requires
            align >= 1,
            aligned(lo as int, align as int),
        ensures
            r.wf(),
            r.align == align,
            r.lo == lo,
            r.next == lo,
            r.live@ == Map::<usize, usize>::empty(),
    {
        Heap { align, lo, next: lo, live: Ghost(Map::empty()) }
    }

    /// Allocate `n` bytes.
    ///
    /// The returned address is aligned to `align` and disjoint from every
    /// live allocation. The real allocator aborts the process when out of
    /// memory; the model instead asks the caller for room below the top of
    /// the address space.
    pub fn allocate(&mut self, n: usize) -> (r: usize)
        requires
            old(self).wf(),
            n > 0,
            aligned(n as int, old(self).align as int),
            old(self).next + n <= usize::MAX,
        ensures
            final(self).wf(),
            final(self).align == old(self).align,
            final(self).lo == old(self).lo,
            r == old(self).next,
            aligned(r as int, old(self).align as int),
            !old(self).live@.dom().contains(r),
            final(self).live@ == old(self).live@.insert(r, n),
            final(self).next == old(self).next + n,
    {
        proof {
            lemma_add_mod_noop(self.next as int, n as int, self.align as int);
        }
        let r = self.next;
        self.next = self.next + n;
        self.live = Ghost(self.live@.insert(r, n));
        r
    }

    /// Deallocate `n` bytes at `ptr`.
    ///
    /// The region must have been produced by `allocate` with the same size and
    /// not deallocated since.
    pub fn deallocate(&mut self, ptr: usize, n: usize)
        requires
            old(self).wf(),
            old(self).live@.contains_pair(ptr, n),
        ensures
            final(self).wf(),
            final(self).align == old(self).align,
            final(self).lo == old(self).lo,
            final(self).next == old(self).next,
            final(self).live@ == old(self).live@.remove(ptr),
    {
        self.live = Ghost(self.live@.remove(ptr));
    }
}

} // verus!
