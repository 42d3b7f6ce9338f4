use vstd::prelude::*;

verus! {

/// The header of an exception raised through the Wasm native exception
/// backend. The VM carries the exception pointer without touching the data
/// behind it, so the header needs no contents; discrimination happens on the
/// pointer itself.
pub struct Header;

/// Tag an own exception's header address before raising it.
///
/// Headers are at least 2-aligned, so their addresses are even; an own
/// exception travels with the low bit set, while any foreign payload keeps
/// its natural, aligned address.
pub fn tag_own(addr: usize) -> (r: usize)
    requires
        addr % 2 == 0,
        addr < usize::MAX,
    ensures
        r == addr + 1,
        r % 2 == 1,
{
    addr + 1
}

/// Classify a caught exception by the low bit of its pointer.
///
/// An even address belongs to a foreign exception, which must be rethrown
/// unchanged; an odd address marks one of the runtime's own, and stripping
/// the tag recovers the header address.
pub fn classify(addr: usize) -> (r: Option<usize>)
    ensures
        addr % 2 == 0 ==> r is None,
        addr % 2 == 1 ==> r == Some((addr - 1) as usize),
{
    if addr % 2 == 0 {
        None
    } else {
        Some(addr - 1)
    }
}

/// The tagging discipline is lossless and unambiguous: a tagged own header
/// is recovered exactly, and an aligned foreign address is never mistaken
/// for an own exception.
pub proof fn lemma_tag_round_trip(addr: usize)
    requires
        addr % 2 == 0,
        addr < usize::MAX,
    ensures
        ((addr + 1) as usize) % 2 == 1,
        (((addr + 1) as usize) - 1) as usize == addr,
{
}

} // verus!
