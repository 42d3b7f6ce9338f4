use vstd::prelude::*;

verus! {

use crate::backend::itanium::{Header, HEADER_ALIGN, HEADER_SIZE, LITHIUM_EXCEPTION_CLASS};
use crate::backend::itanium::new_header;
use crate::heterogeneous_stack::align::aligned;
use crate::heterogeneous_stack::unbounded;
use vstd::arithmetic::div_mod::lemma_fundamental_div_mod;
use vstd::arithmetic::div_mod::lemma_mod_multiples_basic;

/// Capacity in bytes of the inline buffer of an exception stack. Records up
/// to this size are stored without touching the heap.
pub const STACK_CAPACITY: usize = 4096;

/// An exception record: the backend header followed by the slot holding the
/// payload of type `E`.
///
/// In memory the payload sits at a packed offset right after the header, so
/// any payload type is admissible whatever its alignment; the record as a
/// whole is aligned like the header. The payload is read out at most once,
/// at the catch site; afterwards the slot is empty.
#[derive(Debug)]
pub struct Exception<E> {
    pub header: Header,
    pub cause: Option<E>,
}

impl<E> Exception<E> {
    /// Create a new record to be thrown, with a fresh header and the cause
    /// in the payload slot.
    pub fn new(cause: E) -> (r: Exception<E>)
        ensures
            r.header.class == LITHIUM_EXCEPTION_CLASS,
            r.header.cleanup,
            r.cause == Some(cause),
    {
        Exception { header: new_header(), cause: Some(cause) }
    }

    /// Read the cause out of the record, leaving the slot empty.
    ///
    /// May be called at most once per record, which the emptied slot
    /// enforces.
    pub fn cause(&mut self) -> (r: E)
        requires
            old(self).cause is Some,
        ensures
            r == old(self).cause->0,
            final(self).cause is None,
            final(self).header == old(self).header,
    {
        self.cause.take().unwrap()
    }
}

/// `x` rounded up to the next multiple of `a`.
pub open spec fn round_up(x: int, a: int) -> int
    recommends
        a > 0,
{
    if x % a == 0 {
        x
    } else {
        x + a - x % a
    }
}

/// Rounding up yields an aligned value less than one unit above `x`.
pub proof fn lemma_round_up_props(x: int, a: int)
    requires
        x >= 0,
        a > 0,
    ensures
        aligned(round_up(x, a), a),
        x <= round_up(x, a) < x + a,
{
    if x % a != 0 {
        lemma_fundamental_div_mod(x, a);
        assert(x + a - x % a == (x / a + 1) * a) by (nonlinear_arith)
            requires
                x == a * (x / a) + x % a,
        ;
        lemma_mod_multiples_basic(x / a + 1, a);
    }
}

/// The bytes a record for payload type `E` occupies on the exception stack:
/// the header followed by the packed payload, rounded up to the header
/// alignment the stack serves.
pub open spec fn alloc_size_spec<E>() -> int {
    round_up(HEADER_SIZE + vstd::layout::size_of::<E>(), HEADER_ALIGN as int)
}

/// Machine limit: the record for payload type `E` has a representable size.
pub open spec fn record_sizable<E>() -> bool {
    HEADER_SIZE + vstd::layout::size_of::<E>() + HEADER_ALIGN <= usize::MAX
}

/// Compute the allocation size of a record for payload type `E`.
pub fn alloc_size<E>() -> (r: usize)
    requires
        record_sizable::<E>(),
    ensures
        r == alloc_size_spec::<E>(),
        aligned(r as int, HEADER_ALIGN as int),
        r >= HEADER_SIZE,
{
    proof {
        lemma_round_up_props(HEADER_SIZE + vstd::layout::size_of::<E>(), HEADER_ALIGN as int);
    }
    let total = HEADER_SIZE + core::mem::size_of::<E>();
    let rem = total % HEADER_ALIGN;
    if rem == 0 {
        total
    } else {
        total + (HEADER_ALIGN - rem)
    }
}

/// A thread's exception stack.
///
/// In the native runtime one such stack lives in thread-local storage,
/// created at first use and only ever touched by its own thread; here each
/// thread's stack is a value passed explicitly to the operations.
pub struct ExceptionStack {
    pub stack: unbounded::Stack,
}

impl ExceptionStack {
    /// Well-formedness: the byte stack is well-formed and serves the header
    /// alignment with the standard inline capacity.
    pub open spec fn wf(self) -> bool {
        &&& self.stack.wf()
        &&& self.stack.align() == HEADER_ALIGN
        &&& self.stack.capacity() == STACK_CAPACITY
    }

    /// Create an empty exception stack.
    pub fn new() -> (r: ExceptionStack)
        ensures
            r.wf(),
            r.stack.depth == 0,
            r.stack.elements@ == Seq::<unbounded::Element>::empty(),
            r.stack.bounded_stack.len == 0,
            r.stack.heap.next == r.stack.heap.lo,
    {
        ExceptionStack { stack: unbounded::Stack::new(HEADER_ALIGN, STACK_CAPACITY) }
    }
}

/// Machine limits under which a record for payload type `E` can always be
/// pushed onto `st`: the record is sizable, and there is room for one more
/// element and, if need be, for its heap fallback.
pub open spec fn can_allocate<E>(st: ExceptionStack) -> bool {
    &&& record_sizable::<E>()
    &&& st.stack.depth < usize::MAX
    &&& st.stack.heap.next + alloc_size_spec::<E>() <= usize::MAX
}

/// Push a record carrying `cause` onto the exception stack.
///
/// Returns the address of the new record and the record itself. The record
/// goes into the inline buffer whenever it fits, onto the heap otherwise.
pub fn push<E>(st: &mut ExceptionStack, cause: E) -> (r: (usize, Exception<E>))
    requires
        old(st).wf(),
        can_allocate::<E>(*old(st)),
    ensures
        final(st).wf(),
        unbounded::Stack::push_effect(
            old(st).stack,
            final(st).stack,
            final(st).stack.elements@.last(),
        ),
        final(st).stack.elements@.last().addr == r.0,
        final(st).stack.elements@.last().size == alloc_size_spec::<E>(),
        r.1.header.class == LITHIUM_EXCEPTION_CLASS,
        r.1.cause == Some(cause),
{
    let n = alloc_size::<E>();
    let addr = st.stack.push(n);
    (addr, Exception::new(cause))
}

/// Remove the record at `ex` from the top of the exception stack.
///
/// The record must be the top element, as returned by `push` or
/// `replace_last` with the same payload type.
pub fn pop<E>(st: &mut ExceptionStack, ex: usize)
    requires
        old(st).wf(),
        record_sizable::<E>(),
        old(st).stack.elements@.len() > 0,
        old(st).stack.elements@.last().addr == ex,
        old(st).stack.elements@.last().size == alloc_size_spec::<E>(),
    ensures
        final(st).wf(),
        unbounded::Stack::pop_effect(old(st).stack, final(st).stack),
{
    let n = alloc_size::<E>();
    st.stack.pop(ex, n);
}

/// Replace the record at the top of the exception stack by a fresh record
/// carrying `cause`, whose payload type — and so whose size — may differ.
///
/// Returns the address of the new record and the record itself. A record of
/// unchanged size is reused in place, keeping its address.
pub fn replace_last<E, F>(st: &mut ExceptionStack, ex: usize, cause: F) -> (r: (
    usize,
    Exception<F>,
))
    requires
        old(st).wf(),
        record_sizable::<E>(),
        can_allocate::<F>(*old(st)),
        old(st).stack.elements@.len() > 0,
        old(st).stack.elements@.last().addr == ex,
        old(st).stack.elements@.last().size == alloc_size_spec::<E>(),
    ensures
        final(st).wf(),
        unbounded::Stack::replace_effect(
            old(st).stack,
            final(st).stack,
            r.0,
            (alloc_size_spec::<F>() as usize),
        ),
        r.1.header.class == LITHIUM_EXCEPTION_CLASS,
        r.1.cause == Some(cause),
        alloc_size_spec::<F>() == alloc_size_spec::<E>() ==> r.0 == ex,
{
    let old_n = alloc_size::<E>();
    let new_n = alloc_size::<F>();
    let addr = st.stack.replace_last(ex, old_n, new_n);
    (addr, Exception::new(cause))
}

} // verus!
