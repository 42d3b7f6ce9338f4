use vstd::prelude::*;

verus! {

/// Whether `n` is a multiple of the alignment unit `align`.
pub open spec fn aligned(n: int, align: int) -> bool {
    n % align == 0
}

/// Decide whether `n` is a multiple of `align`.
///
/// Allocation sizes handed to the stack allocator must satisfy this check.
pub fn is_aligned(n: usize, align: usize) -> (r: bool)
    requires
        align >= 1,
    ensures
        r == aligned(n as int, align as int),
{
    n % align == 0
}

} // verus!
