use vstd::prelude::*;

verus! {

use crate::heterogeneous_stack::align::aligned;
use vstd::arithmetic::div_mod::lemma_add_mod_noop;
use vstd::arithmetic::div_mod::lemma_sub_mod_noop;

/// A bounded array-backed stack allocator.
///
/// The allocator hands out consecutive byte regions whose sizes are multiples
/// of the alignment unit `align`, from a buffer of fixed capacity. The buffer
/// itself is modelled by its occupancy alone; allocations are identified by
/// addresses in the range `[base(), base() + capacity)`, with `base()` the
/// (aligned, nonzero) address of the first buffer byte.
pub struct Stack {
    /// The alignment unit every size and address is a multiple of.
    pub align: usize,
    /// Total capacity of the buffer, in bytes.
    pub capacity: usize,
    /// Current occupancy, in bytes.
    pub len: usize,
}

impl Stack {
    /// The address of the first byte of the buffer.
    ///
    /// The buffer sits at the lowest aligned nonzero address, which gives
    /// every allocation a nonzero aligned address and lets the unique
    /// zero-size "dangling" allocation (at address `align`) coincide with
    /// the buffer start.
    pub open spec fn base(self) -> int {
        self.align as int
    }

    /// Well-formedness: the occupancy is aligned and within capacity, and the
    /// whole buffer fits in the address space.
    pub open spec fn wf(self) -> bool {
        &&& self.align >= 1
        &&& self.len <= self.capacity
        &&& aligned(self.len as int, self.align as int)
        &&& self.align + self.capacity <= usize::MAX
    }

    /// Create an empty stack.
    pub fn new(align: usize, capacity: usize) -> (r: Stack)
        requires
            align >= 1,
            align + capacity <= usize::MAX,
        ensures
            r.wf(),
            r.align == align,
            r.capacity == capacity,
            r.len == 0,
    {
        Stack { align, capacity, len: 0 }
    }

    /// What `contains_allocated` reports: zero-size allocations are always
    /// considered inline, and a nonzero region lies inside the buffer iff its
    /// address is within `[base(), base() + capacity - n]`.
    pub open spec fn contains_spec(self, ptr: usize, n: usize) -> bool {
        ||| n == 0
        ||| (n <= self.capacity && self.base() <= ptr && ptr - self.base() <= self.capacity - n)
    }

    /// Allocate `n` bytes.
    ///
    /// The returned address is aligned to `align` and unique among live
    /// allocations. Returns `None` iff there is not enough capacity left;
    /// in particular, allocating 0 bytes always succeeds, yielding the
    /// dangling address without consuming space.
    pub fn try_push(&mut self, n: usize) -> (r: Option<usize>)
        requires
            old(self).wf(),
            aligned(n as int, old(self).align as int),
        ensures
            final(self).wf(),
            final(self).align == old(self).align,
            final(self).capacity == old(self).capacity,
            n == 0 ==> r == Some(old(self).align) && final(self).len == old(self).len,
            n > 0 && n <= old(self).capacity - old(self).len ==> {
                &&& r == Some((old(self).align + old(self).len) as usize)
                &&& final(self).len == old(self).len + n
            },
            n > old(self).capacity - old(self).len ==> r is None && final(self).len == old(self).len,
            r is Some ==> aligned(r->0 as int, old(self).align as int)
                && final(self).contains_spec(r->0, n),
    {
        proof {
            lemma_add_mod_noop(self.align as int, self.len as int, self.align as int);
            lemma_add_mod_noop(self.len as int, n as int, self.align as int);
        }
        if n == 0 {
            return Some(self.align);
        }
        let capacity_left = self.capacity - self.len;
        if n > capacity_left {
            return None;
        }
        let ptr = self.align + self.len;
        self.len = self.len + n;
        Some(ptr)
    }

    /// Remove `n` bytes from the top of the stack.
    ///
    /// The caller is responsible for `n` matching the size of the top
    /// allocation; the composed stack proves that where it calls this.
    pub fn pop_unchecked(&mut self, n: usize)
        requires
            old(self).wf(),
            aligned(n as int, old(self).align as int),
            n <= old(self).len,
        ensures
            final(self).wf(),
            final(self).align == old(self).align,
            final(self).capacity == old(self).capacity,
            final(self).len == old(self).len - n,
    {
        proof {
            lemma_sub_mod_noop(self.len as int, n as int, self.align as int);
        }
        self.len = self.len - n;
    }

    /// Check whether an allocation is within the buffer.
    ///
    /// Returns `true` for any address produced by a still-live `try_push`,
    /// and `false` for any nonzero-size region disjoint from the buffer;
    /// zero-size regions are always reported inline.
    pub fn contains_allocated(&self, ptr: usize, n: usize) -> (r: bool)
        requires
            self.wf(),
        ensures
            r == self.contains_spec(ptr, n),
    {
        if n == 0 {
            return true;
        }
        match self.capacity.checked_sub(n) {
            None => false,
            Some(limit) => match ptr.checked_sub(self.align) {
                None => false,
                Some(offset) => offset <= limit,
            },
        }
    }
}

} // verus!
