use vstd::prelude::*;

verus! {

/// A best-effort runtime type checker for thrown and caught exceptions.
///
/// The native runtime records an identity of the payload type at the throw
/// site and compares it against the type declared at the catch site,
/// aborting the process on a mismatch: the throw/catch type contract is
/// broken and no recovery is sound. The check is a debug aid only — it is
/// absent in release builds, and its presence must not change the
/// semantics of well-formed programs. Type identities are opaque tokens;
/// here they are taken as integers.
#[derive(Debug)]
pub struct TypeChecker {
    pub id: u64,
}

impl TypeChecker {
    /// Record the identity of the thrown payload's type.
    pub fn new(id: u64) -> (r: TypeChecker)
        ensures
            r.id == id,
    {
        TypeChecker { id }
    }

    /// Check the identity declared at the catch site against the recorded
    /// one; false means the catch would observe a payload of the wrong
    /// type, which the native runtime answers by aborting.
    pub fn expect(&self, id: u64) -> (r: bool)
        ensures
            r == (self.id == id),
    {
        self.id == id
    }
}

} // verus!
