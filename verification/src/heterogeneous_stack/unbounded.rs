use vstd::prelude::*;

verus! {

use crate::heterogeneous_stack::align::aligned;
use crate::heterogeneous_stack::array;
use crate::heterogeneous_stack::heap::Heap;
use vstd::arithmetic::div_mod::lemma_add_mod_noop;

/// One element of the heterogeneous stack: a byte region of `size` bytes at
/// address `addr`, either inline in the bounded buffer or on the heap.
pub struct Element {
    pub addr: usize,
    pub size: usize,
    pub on_heap: bool,
}

/// The sum of the sizes of the inline elements among the first `i` elements
/// of `s`. Inline elements sit consecutively in the bounded buffer, so this
/// is also the buffer offset of the next inline element after them.
pub open spec fn inline_sum(s: Seq<Element>, i: int) -> int
    decreases i,
{
    if i <= 0 {
        0
    } else {
        inline_sum(s, i - 1) + if s[i - 1].on_heap {
            0
        } else {
            s[i - 1].size as int
        }
    }
}

/// `inline_sum` only looks at the first `i` elements.
pub proof fn lemma_inline_sum_agree(s1: Seq<Element>, s2: Seq<Element>, i: int)
    requires
        forall|k: int| 0 <= k < i ==> s1[k] == s2[k],
    ensures
        inline_sum(s1, i) == inline_sum(s2, i),
    decreases i,
{
    if i > 0 {
        lemma_inline_sum_agree(s1, s2, i - 1);
    }
}

/// `inline_sum` is monotone in the number of elements summed.
pub proof fn lemma_inline_sum_mono(s: Seq<Element>, i: int, j: int)
    requires
        0 <= i <= j,
    ensures
        inline_sum(s, i) <= inline_sum(s, j),
    decreases j - i,
{
    if i < j {
        lemma_inline_sum_mono(s, i, j - 1);
    }
}

/// A heterogeneous stack of byte regions, using the fixed-capacity inline
/// buffer when possible and falling back to the heap.
///
/// The stack tracks only byte sizes; the logical elements live in the ghost
/// sequence `elements`, bottom first. All elements are independent; the
/// operations must be used consistently with a LIFO discipline, which the
/// contracts enforce.
pub struct Stack {
    pub bounded_stack: array::Stack,
    pub heap: Heap,
    /// The number of live elements.
    pub depth: usize,
    /// The live elements, bottom of the stack first.
    pub elements: Ghost<Seq<Element>>,
}

impl Stack {
    /// The alignment unit every size and address is a multiple of.
    pub open spec fn align(self) -> int {
        self.bounded_stack.align as int
    }

    /// The address of the first byte of the inline buffer.
    pub open spec fn base(self) -> int {
        self.bounded_stack.base()
    }

    /// The capacity of the inline buffer.
    pub open spec fn capacity(self) -> int {
        self.bounded_stack.capacity as int
    }

    /// Well-formedness of the element at index `i`:
    /// - its size is a multiple of the alignment unit;
    /// - an inline element of nonzero size sits in the buffer right after
    ///   the inline elements below it, and a zero-size element sits at the
    ///   dangling address (zero-size regions are always inline);
    /// - a heap element is live in the heap allocator and did not fit in
    ///   the buffer when it was pushed.
    pub open spec fn elem_wf(self, i: int) -> bool {
        let e = self.elements@[i];
        &&& aligned(e.size as int, self.align())
        &&& (e.size == 0 ==> !e.on_heap && e.addr == self.base())
        &&& (!e.on_heap && e.size > 0 ==> e.addr == self.base() + inline_sum(self.elements@, i))
        &&& (e.on_heap ==> {
            &&& e.size > 0
            &&& self.heap.live@.contains_pair(e.addr, e.size)
            &&& e.size > self.capacity() - inline_sum(self.elements@, i)
        })
    }

    /// Well-formedness of the whole stack: the parts agree on the alignment
    /// unit, the heap serves addresses disjoint from the buffer, the buffer
    /// occupancy is the sum of the inline element sizes, and every element
    /// is well-formed, heap elements at pairwise distinct addresses.
    pub open spec fn wf(self) -> bool {
        &&& self.bounded_stack.wf()
        &&& self.heap.wf()
        &&& self.heap.align == self.bounded_stack.align
        &&& self.heap.lo == self.bounded_stack.align + self.bounded_stack.capacity
        &&& aligned(self.capacity(), self.align())
        &&& self.depth == self.elements@.len()
        &&& inline_sum(self.elements@, self.elements@.len() as int) == self.bounded_stack.len
        &&& forall|i: int| 0 <= i < self.elements@.len() ==> self.elem_wf(i)
        &&& forall|i: int, j: int|
            0 <= i < j < self.elements@.len() && self.elements@[i].on_heap
                && self.elements@[j].on_heap ==> self.elements@[i].addr != self.elements@[j].addr
    }

    /// Create an empty stack.
    pub fn new(align: usize, capacity: usize) -> (r: Stack)
        requires
            align >= 1,
            aligned(capacity as int, align as int),
            align + capacity <= usize::MAX,
        ensures
            r.wf(),
            r.align() == align,
            r.capacity() == capacity,
            r.depth == 0,
            r.elements@ == Seq::<Element>::empty(),
            r.bounded_stack.len == 0,
            r.heap.next == r.heap.lo,
            r.heap.live@ == Map::<usize, usize>::empty(),
    {
        let bounded_stack = array::Stack::new(align, capacity);
        proof {
            lemma_add_mod_noop(align as int, capacity as int, align as int);
        }
        let heap = Heap::new(align, align + capacity);
        Stack { bounded_stack, heap, depth: 0, elements: Ghost(Seq::empty()) }
    }

    /// The state change `push` makes: the new element goes inline exactly
    /// when it fits in the remaining buffer capacity (a zero-size element
    /// always does), and to the heap otherwise.
    pub open spec fn push_effect(pre: Stack, post: Stack, e: Element) -> bool {
        let fits = e.size <= pre.capacity() - pre.bounded_stack.len;
        &&& post.elements@ == pre.elements@.push(e)
        &&& post.depth == pre.depth + 1
        &&& post.bounded_stack.align == pre.bounded_stack.align
        &&& post.bounded_stack.capacity == pre.bounded_stack.capacity
        &&& e.on_heap == !fits
        &&& (fits ==> {
            &&& e.addr == if e.size == 0 {
                pre.base()
            } else {
                pre.base() + pre.bounded_stack.len
            }
            &&& post.bounded_stack.len == pre.bounded_stack.len + e.size
            &&& post.heap == pre.heap
        })
        &&& (!fits ==> {
            &&& e.addr == pre.heap.next
            &&& post.heap.live@ == pre.heap.live@.insert(e.addr, e.size)
            &&& post.heap.next == pre.heap.next + e.size
            &&& post.heap.align == pre.heap.align
            &&& post.heap.lo == pre.heap.lo
            &&& post.bounded_stack == pre.bounded_stack
        })
    }

    /// Pushing a well-formed new element preserves well-formedness.
    proof fn lemma_wf_after_push(pre: Stack, post: Stack, e: Element)
        requires
            pre.wf(),
            Stack::push_effect(pre, post, e),
            aligned(e.size as int, pre.align()),
            post.bounded_stack.wf(),
            post.heap.wf(),
            !e.on_heap ==> post.heap == pre.heap,
            e.on_heap ==> !pre.heap.live@.dom().contains(e.addr),
        ensures
            post.wf(),
    {
        let s0 = pre.elements@;
        let s1 = post.elements@;
        let n = s0.len() as int;
        lemma_inline_sum_agree(s1, s0, n);
        assert(inline_sum(s1, n + 1) == inline_sum(s0, n) + if e.on_heap {
            0
        } else {
            e.size as int
        });
        assert forall|i: int| 0 <= i < s1.len() implies post.elem_wf(i) by {
            if i < n {
                assert(pre.elem_wf(i));
                lemma_inline_sum_agree(s1, s0, i);
            } else {
                lemma_inline_sum_agree(s1, s0, n);
            }
        }
        assert forall|i: int, j: int|
            0 <= i < j < s1.len() && s1[i].on_heap && s1[j].on_heap implies s1[i].addr
            != s1[j].addr by {
            // Whether `j` is an old element or the new one, the heap address
            // of the element below it is live in the old heap, which a fresh
            // allocation never collides with.
            assert(pre.elem_wf(i));
        }
    }

    /// Push an `n`-byte element.
    ///
    /// The returned address is aligned to the alignment unit and unique
    /// among live elements: the buffer is tried first, the heap takes what
    /// does not fit. Room below the top of the address space is only needed
    /// when the element goes to the heap.
    pub fn push(&mut self, n: usize) -> (r: usize)
        requires
            old(self).wf(),
            aligned(n as int, old(self).align()),
            old(self).depth < usize::MAX,
            n > old(self).capacity() - old(self).bounded_stack.len ==> old(self).heap.next + n
                <= usize::MAX,
        ensures
            final(self).wf(),
            Stack::push_effect(*old(self), *final(self), final(self).elements@.last()),
            final(self).elements@.last().addr == r,
            final(self).elements@.last().size == n,
            aligned(r as int, old(self).align()),
    {
        let ghost pre = *self;
        let r: usize;
        let on_heap: bool;
        match self.bounded_stack.try_push(n) {
            Some(ptr) => {
                r = ptr;
                on_heap = false;
            },
            None => {
                r = self.heap.allocate(n);
                on_heap = true;
            },
        }
        self.depth = self.depth + 1;
        let ghost e = Element { addr: r, size: n, on_heap };
        proof {
            self.elements@ = pre.elements@.push(e);
            Stack::lemma_wf_after_push(pre, *self, e);
        }
        r
    }

    /// The state change `pop` makes: the top element leaves the stack, and
    /// the part that held it gets its bytes back.
    pub open spec fn pop_effect(pre: Stack, post: Stack) -> bool {
        let e = pre.elements@.last();
        &&& post.elements@ == pre.elements@.drop_last()
        &&& post.depth == pre.depth - 1
        &&& post.bounded_stack.align == pre.bounded_stack.align
        &&& post.bounded_stack.capacity == pre.bounded_stack.capacity
        &&& (!e.on_heap ==> {
            &&& post.bounded_stack.len == pre.bounded_stack.len - e.size
            &&& post.heap == pre.heap
        })
        &&& (e.on_heap ==> {
            &&& post.bounded_stack == pre.bounded_stack
            &&& post.heap.live@ == pre.heap.live@.remove(e.addr)
            &&& post.heap.next == pre.heap.next
            &&& post.heap.align == pre.heap.align
            &&& post.heap.lo == pre.heap.lo
        })
    }

    /// Remove the top element, an `n`-byte region at `ptr`.
    ///
    /// Whether the element is inline is decided by `contains_allocated`;
    /// the well-formedness invariant proves the decision right, so the
    /// bytes always go back to the part that allocated them.
    pub fn pop(&mut self, ptr: usize, n: usize)
        requires
            old(self).wf(),
            old(self).elements@.len() > 0,
            old(self).elements@.last().addr == ptr,
            old(self).elements@.last().size == n,
        ensures
            final(self).wf(),
            Stack::pop_effect(*old(self), *final(self)),
    {
        let ghost pre = *self;
        let ghost s0 = pre.elements@;
        let ghost top = s0.len() as int - 1;
        proof {
            assert(pre.elem_wf(top));
            lemma_inline_sum_mono(s0, top, top + 1);
            lemma_inline_sum_mono(s0, 0, top);
        }
        if self.bounded_stack.contains_allocated(ptr, n) {
            proof {
                // A heap element lies at or above `base + capacity`, outside
                // the buffer, so it cannot be reported inline.
                if s0.last().on_heap {
                    assert(pre.heap.live@.contains_pair(ptr, n));
                    assert(ptr >= pre.heap.lo);
                    assert(false);
                }
            }
            self.bounded_stack.pop_unchecked(n);
        } else {
            proof {
                // An inline element is always reported inline.
                if !s0.last().on_heap {
                    assert(inline_sum(s0, top + 1) == inline_sum(s0, top) + n);
                    assert(false);
                }
            }
            self.heap.deallocate(ptr, n);
        }
        self.depth = self.depth - 1;
        proof {
            self.elements@ = s0.drop_last();
            let s1 = self.elements@;
            lemma_inline_sum_agree(s1, s0, top);
            assert forall|i: int| 0 <= i < s1.len() implies self.elem_wf(i) by {
                assert(pre.elem_wf(i));
                lemma_inline_sum_agree(s1, s0, i);
            }
        }
    }

    /// The state change `replace_last` makes. With unchanged size the
    /// element (and the whole stack) stays as it was; otherwise the old
    /// element is popped and the new one pushed, so the new element goes
    /// inline exactly when it fits in the buffer freed of the old element.
    pub open spec fn replace_effect(pre: Stack, post: Stack, r: usize, new_n: usize) -> bool {
        let e_old = pre.elements@.last();
        let was_inline = !e_old.on_heap;
        let mid_len = if was_inline {
            pre.bounded_stack.len - e_old.size
        } else {
            pre.bounded_stack.len as int
        };
        let mid_live = if was_inline {
            pre.heap.live@
        } else {
            pre.heap.live@.remove(e_old.addr)
        };
        let fits = new_n <= pre.capacity() - mid_len;
        let e_new = post.elements@.last();
        &&& post.elements@ == pre.elements@.drop_last().push(e_new)
        &&& e_new.addr == r
        &&& e_new.size == new_n
        &&& post.depth == pre.depth
        &&& post.bounded_stack.align == pre.bounded_stack.align
        &&& post.bounded_stack.capacity == pre.bounded_stack.capacity
        &&& (e_old.size == new_n ==> r == e_old.addr && post == pre)
        &&& (e_old.size != new_n ==> {
            &&& e_new.on_heap == !fits
            &&& (fits ==> {
                &&& r == if new_n == 0 {
                    pre.base()
                } else {
                    pre.base() + mid_len
                }
                &&& post.bounded_stack.len == mid_len + new_n
                &&& post.heap.live@ == mid_live
                &&& post.heap.next == pre.heap.next
            })
            &&& (!fits ==> {
                &&& r == pre.heap.next
                &&& post.bounded_stack.len == mid_len
                &&& post.heap.live@ == mid_live.insert(r, new_n)
                &&& post.heap.next == pre.heap.next + new_n
            })
            // An inline element shrunk to a smaller nonzero size keeps its
            // address; one that did not fit in the buffer cannot start
            // fitting by growing.
            &&& (was_inline && 0 < new_n < e_old.size ==> r == e_old.addr)
            &&& (!was_inline && new_n > e_old.size ==> e_new.on_heap)
        })
    }

    /// Replace the top element, an `old_n`-byte region at `old_ptr`, by a
    /// `new_n`-byte region, possibly of a different size.
    ///
    /// With equal sizes the allocation is reused in place and the address
    /// is returned unchanged. Otherwise the old element is popped and the
    /// new one pushed; shrinking an inline element is sure to stay inline
    /// at the same address, and growing a heap element is sure to stay on
    /// the heap.
    pub fn replace_last(&mut self, old_ptr: usize, old_n: usize, new_n: usize) -> (r: usize)
        requires
            old(self).wf(),
            old(self).elements@.len() > 0,
            old(self).elements@.last().addr == old_ptr,
            old(self).elements@.last().size == old_n,
            aligned(new_n as int, old(self).align()),
            old_n != new_n ==> old(self).heap.next + new_n <= usize::MAX,
        ensures
            final(self).wf(),
            Stack::replace_effect(*old(self), *final(self), r, new_n),
    {
        let ghost pre = *self;
        if old_n == new_n {
            // Same size: the allocation is reused in place.
            proof {
                assert(pre.elements@ =~= pre.elements@.drop_last().push(pre.elements@.last()));
            }
            return old_ptr;
        }
        let ghost top = pre.elements@.len() as int - 1;
        let ghost e_old = pre.elements@.last();
        proof {
            assert(pre.elem_wf(top));
            lemma_inline_sum_mono(pre.elements@, top, top + 1);
            lemma_inline_sum_mono(pre.elements@, 0, top);
        }
        self.pop(old_ptr, old_n);
        let r = self.push(new_n);
        proof {
            let e_new = self.elements@.last();
            assert(self.elements@ =~= pre.elements@.drop_last().push(e_new));
            if !e_old.on_heap && 0 < new_n < e_old.size {
                // The old inline element freed at least `new_n` bytes right
                // where it sat, so the replacement fits there again.
                assert(r == e_old.addr);
            }
            if e_old.on_heap && new_n > e_old.size {
                // The old element did not fit in the buffer, which the pop
                // left untouched, so the bigger replacement fits even less.
                assert(e_new.on_heap);
            }
        }
        r
    }

    /// Every allocation the stack hands out is unique: two distinct live
    /// elements of nonzero size occupy disjoint byte regions, whether they
    /// sit in the buffer, on the heap, or one in each.
    pub proof fn lemma_elements_disjoint(self, i: int, j: int)
        requires
            self.wf(),
            0 <= i < j < self.elements@.len(),
            self.elements@[i].size > 0,
            self.elements@[j].size > 0,
        ensures
            self.elements@[i].addr + self.elements@[i].size <= self.elements@[j].addr
                || self.elements@[j].addr + self.elements@[j].size <= self.elements@[i].addr,
    {
        let s = self.elements@;
        let n = s.len() as int;
        let ei = s[i];
        let ej = s[j];
        assert(self.elem_wf(i));
        assert(self.elem_wf(j));
        if !ei.on_heap && !ej.on_heap {
            // Inline elements sit consecutively: everything below `j` ends
            // at or before the offset where `j` starts.
            assert(inline_sum(s, i + 1) == inline_sum(s, i) + ei.size);
            lemma_inline_sum_mono(s, i + 1, j);
        } else if !ei.on_heap && ej.on_heap {
            // An inline region ends within the buffer; heap regions start
            // past its end.
            assert(inline_sum(s, i + 1) == inline_sum(s, i) + ei.size);
            lemma_inline_sum_mono(s, i + 1, n);
        } else if ei.on_heap && !ej.on_heap {
            assert(inline_sum(s, j + 1) == inline_sum(s, j) + ej.size);
            lemma_inline_sum_mono(s, j + 1, n);
        } else {
            // Two live heap allocations at distinct addresses are disjoint
            // by the heap's invariant.
            assert(ei.addr != ej.addr);
        }
    }
}

} // verus!
