use vstd::prelude::*;

verus! {

use crate::backend::itanium::LITHIUM_EXCEPTION_CLASS;
use crate::heterogeneous_stack::unbounded;
use crate::heterogeneous_stack::unbounded::Element;
use crate::stacked_exceptions::{
    alloc_size_spec, can_allocate, pop, push, record_sizable, replace_last, Exception,
    ExceptionStack,
};

/// An exception in flight between its raise and the catch frame that takes
/// custody of it: the record has been pushed onto the exception stack and
/// unwinding is in progress.
///
/// In the native runtime the record travels as a header pointer through the
/// unwinder while the payload stays in the record; here the record rides
/// along with its address.
#[derive(Debug)]
pub struct Raised<E> {
    pub addr: usize,
    pub ex: Exception<E>,
}

impl<E> Raised<E> {
    /// The raised record is the top of the exception stack `st`, as every
    /// exception arriving at the nearest enclosing catch frame is.
    pub open spec fn on_top_of(self, st: ExceptionStack) -> bool {
        &&& st.stack.elements@.len() > 0
        &&& st.stack.elements@.last().addr == self.addr
        &&& st.stack.elements@.last().size == alloc_size_spec::<E>()
    }
}

/// What a protected callback did: returned a value, or threw an exception
/// that is now unwinding toward the nearest enclosing catch frame.
///
/// The native runtime learns this by running the callback under the host
/// catch intrinsic, which lands in exactly one of these two states; the
/// unwinding is the host's work, so here the outcome is a value handed to
/// `catch` and `intercept`.
pub enum Outcome<R, E> {
    Returned(R),
    Thrown(Raised<E>),
}

/// Throw an exception.
///
/// A record carrying `cause` is pushed onto the exception stack and starts
/// unwinding toward the nearest enclosing `catch` or `intercept`, which must
/// declare the same payload type `E`. The record is placed in the inline
/// buffer whenever it fits, so a throw usually allocates nothing.
pub fn throw<E>(st: &mut ExceptionStack, cause: E) -> (r: Raised<E>)
    requires
        old(st).wf(),
        can_allocate::<E>(*old(st)),
    ensures
        final(st).wf(),
        r.on_top_of(*final(st)),
        unbounded::Stack::push_effect(
            old(st).stack,
            final(st).stack,
            final(st).stack.elements@.last(),
        ),
        r.ex.cause == Some(cause),
        r.ex.header.class == LITHIUM_EXCEPTION_CLASS,
{
    let (addr, ex) = push(st, cause);
    Raised { addr, ex }
}

/// Not-quite-caught exception.
///
/// Returned by `intercept` when an exception is caught: handling is not
/// finished at that point, and the record still occupies the top of the
/// exception stack. The handle owns the record; it is finalized either by
/// `dismiss`, which returns the stack to its pre-throw state, or by
/// `rethrow`, which reuses the record for a new raise.
///
/// While a handle is live its record must remain the top of the stack:
/// handles are strictly LIFO-scoped, and several live ones must be
/// finalized in the reverse order of their creation. The contracts of
/// `dismiss` and `rethrow` enforce exactly that.
#[derive(Debug)]
pub struct InFlightException<E> {
    pub addr: usize,
    pub ex: Exception<E>,
}

impl<E> InFlightException<E> {
    /// The handle's record is the top of the exception stack `st`; its
    /// payload slot was emptied when the cause was read out at catch time.
    pub open spec fn on_top_of(self, st: ExceptionStack) -> bool {
        &&& st.stack.elements@.len() > 0
        &&& st.stack.elements@.last().addr == self.addr
        &&& st.stack.elements@.last().size == alloc_size_spec::<E>()
    }

    /// Drop the in-flight exception, halting its handling.
    ///
    /// The record is popped, so the exception stack returns to its state
    /// before the corresponding throw.
    pub fn dismiss(self, st: &mut ExceptionStack)
        requires
            old(st).wf(),
            record_sizable::<E>(),
            self.on_top_of(*old(st)),
        ensures
            final(st).wf(),
            unbounded::Stack::pop_effect(old(st).stack, final(st).stack),
    {
        pop::<E>(st, self.addr);
    }

    /// Throw a new exception by reusing the caught one's record.
    ///
    /// The payload slot is replaced in place with `new_cause`, whose type —
    /// and with it the record's size — may differ; the record of a
    /// size-preserving rethrow keeps its address, so the raise reuses the
    /// existing allocation and unwinder context.
    pub fn rethrow<F>(self, st: &mut ExceptionStack, new_cause: F) -> (r: Raised<F>)
        requires
            old(st).wf(),
            record_sizable::<E>(),
            can_allocate::<F>(*old(st)),
            self.on_top_of(*old(st)),
        ensures
            final(st).wf(),
            r.on_top_of(*final(st)),
            unbounded::Stack::replace_effect(
                old(st).stack,
                final(st).stack,
                r.addr,
                (alloc_size_spec::<F>() as usize),
            ),
            r.ex.cause == Some(new_cause),
            r.ex.header.class == LITHIUM_EXCEPTION_CLASS,
            alloc_size_spec::<F>() == alloc_size_spec::<E>() ==> r.addr == self.addr
                && final(st).stack == old(st).stack,
    {
        let (addr, ex) = replace_last::<E, F>(st, self.addr, new_cause);
        Raised { addr, ex }
    }
}

/// Begin exception catching.
///
/// If the callback returned a value, it is wrapped in `Ok` and the
/// exception stack is untouched. If the callback threw, the cause is read
/// out of the record and returned in `Err` together with a handle that
/// keeps the exception in flight: the record stays on the stack until the
/// handle is dismissed or rethrown.
///
/// Host panics and foreign exceptions never reach this point: the backend
/// rethrows them unchanged before an outcome is formed.
pub fn intercept<R, E>(st: &mut ExceptionStack, outcome: Outcome<R, E>) -> (r: Result<
    R,
    (E, InFlightException<E>),
>)
    requires
        old(st).wf(),
        outcome matches Outcome::Thrown(raised) ==> raised.on_top_of(*old(st))
            && raised.ex.cause is Some,
    ensures
        *final(st) == *old(st),
        match outcome {
            Outcome::Returned(v) => r matches Ok(rv) && rv == v,
            Outcome::Thrown(raised) => r matches Err((cause, h)) && {
                &&& Some(cause) == raised.ex.cause
                &&& h.addr == raised.addr
                &&& h.on_top_of(*final(st))
                &&& h.ex.cause is None
                &&& h.ex.header == raised.ex.header
            },
        },
{
    match outcome {
        Outcome::Returned(v) => Ok(v),
        Outcome::Thrown(mut raised) => {
            let cause = raised.ex.cause();
            Err((cause, InFlightException { addr: raised.addr, ex: raised.ex }))
        },
    }
}

/// Catch an exception.
///
/// If the callback returned a value, it is wrapped in `Ok`. If it threw, the
/// cause is delivered in `Err`, exactly as it was raised, and the record is
/// released: catching is `intercept` followed by dismissing the in-flight
/// handle, so the exception stack returns to its pre-throw state.
///
/// Host panics and foreign exceptions never reach this point: the backend
/// rethrows them unchanged before an outcome is formed.
pub fn catch<R, E>(st: &mut ExceptionStack, outcome: Outcome<R, E>) -> (r: Result<R, E>)
    requires
        old(st).wf(),
        outcome matches Outcome::Thrown(raised) ==> raised.on_top_of(*old(st))
            && raised.ex.cause is Some && record_sizable::<E>(),
    ensures
        final(st).wf(),
        match outcome {
            Outcome::Returned(v) => r matches Ok(rv) && rv == v && *final(st) == *old(st),
            Outcome::Thrown(raised) => r matches Err(cause) && {
                &&& Some(cause) == raised.ex.cause
                &&& unbounded::Stack::pop_effect(old(st).stack, final(st).stack)
            },
        },
{
    match intercept(st, outcome) {
        Ok(v) => Ok(v),
        Err((cause, handle)) => {
            handle.dismiss(st);
            Err(cause)
        },
    }
}

/// Finalizing a freshly raised exception undoes the raise.
///
/// Whether the exception is caught by `catch` or intercepted and its handle
/// dismissed, popping the record that the throw pushed returns the stack to
/// its pre-throw state: the same elements, the same inline-buffer occupancy
/// and the same live heap allocations — dropping an in-flight handle is
/// observably equivalent to never having thrown. The cause itself is
/// delivered unchanged, by the contract of `catch` and `intercept`.
pub proof fn lemma_raise_finalize_round_trip(
    pre: unbounded::Stack,
    mid: unbounded::Stack,
    post: unbounded::Stack,
    e: Element,
)
    requires
        pre.wf(),
        unbounded::Stack::push_effect(pre, mid, e),
        unbounded::Stack::pop_effect(mid, post),
    ensures
        post.elements@ == pre.elements@,
        post.depth == pre.depth,
        post.bounded_stack.len == pre.bounded_stack.len,
        post.heap.live@ == pre.heap.live@,
        post.heap.lo == pre.heap.lo,
{
    assert(post.elements@ =~= pre.elements@);
    if e.on_heap {
        assert(!pre.heap.live@.dom().contains(e.addr)) by {
            if pre.heap.live@.dom().contains(e.addr) {
                assert(e.addr + pre.heap.live@[e.addr] <= pre.heap.next);
            }
        }
        assert(post.heap.live@ =~= pre.heap.live@);
    }
}

/// Nested raises are delivered in LIFO order.
///
/// With `R1` raised and `R2` raised on top of it — as when a destructor
/// throws while the stack unwinds from `R1` — the next catch or intercept
/// frame takes custody of `R2`, the top of the stack; only once `R2` is
/// finalized does `R1` become the top again, to be observed by the next
/// enclosing frame. Likewise, of two in-flight handles the inner one must
/// be finalized first: the contracts of `dismiss` and `rethrow` accept only
/// the top record.
pub proof fn lemma_lifo_delivery(s: Seq<Element>, e1: Element, e2: Element)
    ensures
        s.push(e1).push(e2).last() == e2,
        s.push(e1).push(e2).drop_last() =~= s.push(e1),
        s.push(e1).last() == e1,
        s.push(e1).drop_last() =~= s,
{
}

} // verus!
