//! Unwinding backends.
//!
//! A backend adapts one native unwinding ABI to the runtime. The native
//! raise and catch primitives are host facilities outside this crate; what
//! is verified here is the part of each backend that the runtime's
//! correctness rests on: how an exception of the runtime's own is told apart
//! from a foreign one, and how the header it travels with is laid out.

pub mod itanium;
pub mod wasm;
