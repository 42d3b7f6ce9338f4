use vstd::prelude::*;

verus! {

/// The class word carried by every exception the runtime raises: the bytes
/// `RUSTIEX` followed by a zero byte, read as a little-endian 64-bit word.
/// Foreign exceptions carry some other class, chosen by whoever raised them.
pub const LITHIUM_EXCEPTION_CLASS: u64 = 0x0058_4549_5453_5552;

/// Number of private pointer-sized words the unwinder keeps in the header.
/// The exact count is dictated by the target; two words is the baseline the
/// Itanium ABI specifies, which the model adopts.
pub const UNWINDER_PRIVATE_WORD_COUNT: usize = 2;

/// The alignment the unwinding ABI requires of an exception header. The
/// conservative figure covers every target the runtime serves, so a record
/// aligned like a header is aligned for the ABI everywhere.
pub const HEADER_ALIGN: usize = 16;

/// The bytes an exception header occupies: the class word, the cleanup
/// callback word and the private unwinder words, all eight bytes wide in
/// the modelled 64-bit layout — 32 bytes, a multiple of `HEADER_ALIGN`.
pub const HEADER_SIZE: usize = 8 + 8 + UNWINDER_PRIVATE_WORD_COUNT * 8;

/// An Itanium-style exception header.
///
/// The native header holds the class word, a cleanup callback invoked when a
/// foreign runtime destroys the exception, and private unwinder state. The
/// callback and the private words are opaque to the runtime; the model keeps
/// whether the callback is installed and the first private word, which the
/// runtime zeroes on creation for the architectures that require it.
#[derive(Debug)]
pub struct Header {
    /// The class word; `LITHIUM_EXCEPTION_CLASS` marks the runtime's own.
    pub class: u64,
    /// Whether the abort-on-foreign-catch cleanup callback is installed.
    pub cleanup: bool,
    /// The first private unwinder word.
    pub private1: usize,
}

/// Create a fresh header for an exception about to be raised.
///
/// The cleanup callback is always installed: an own exception destroyed by a
/// non-cooperating runtime is a broken type contract and must abort.
pub fn new_header() -> (r: Header)
    ensures
        r.class == LITHIUM_EXCEPTION_CLASS,
        r.cleanup,
        r.private1 == 0,
{
    Header { class: LITHIUM_EXCEPTION_CLASS, cleanup: true, private1: 0 }
}

/// Decide whether a caught exception is the runtime's own, by its class
/// word alone.
///
/// The class word is inspected byte-addressably in the native runtime
/// because a foreign header may be less aligned than ours; the decision is
/// the same either way. A foreign class is never claimed as our own, so a
/// foreign exception is always rethrown unmodified.
pub fn is_own_class(class: u64) -> (r: bool)
    ensures
        r == (class == LITHIUM_EXCEPTION_CLASS),
{
    class == LITHIUM_EXCEPTION_CLASS
}

/// What the catch frame does with an exception the host intrinsic caught.
pub enum Disposition {
    /// The exception is the runtime's own: deliver it to the catch frame.
    Deliver,
    /// The exception is foreign: re-raise it immediately, unmodified, as if
    /// it had never been caught.
    Rethrow,
}

/// Decide the fate of a caught exception from its class word.
///
/// A foreign exception — a host panic or a native exception of another
/// runtime — is never delivered: it propagates out of the catch frame
/// unchanged.
pub fn on_caught(class: u64) -> (r: Disposition)
    ensures
        class == LITHIUM_EXCEPTION_CLASS <==> r is Deliver,
        class != LITHIUM_EXCEPTION_CLASS <==> r is Rethrow,
{
    if is_own_class(class) {
        Disposition::Deliver
    } else {
        Disposition::Rethrow
    }
}

} // verus!
