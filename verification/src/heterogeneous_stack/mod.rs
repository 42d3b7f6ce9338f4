//! The exception stack allocator: a fixed-capacity aligned inline buffer,
//! a heap fallback, and their composition into an unbounded LIFO byte stack.

pub mod align;
pub mod array;
pub mod heap;
pub mod unbounded;
