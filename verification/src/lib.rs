//! A lightweight exception mechanism, verified as a state machine over an
//! explicit exception stack.
//!
//! The runtime lets a throw site raise a typed error value, unwind to the
//! nearest enclosing catch site, and deliver the value there. Payloads are
//! stored in records on a LIFO byte stack: a fixed-capacity inline buffer
//! backed by a heap fallback, so that nested throws usually allocate nothing.

pub mod api;
pub mod backend;
pub mod heterogeneous_stack;
pub mod stacked_exceptions;
pub mod type_checker;

pub use api::{catch, intercept, throw, InFlightException};
