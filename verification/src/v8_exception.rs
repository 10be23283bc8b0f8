//! Script exception handles.

use vstd::prelude::*;

verus! {

/// Non-owning view of a foreign script exception.  Its message lives on the
/// foreign side; fetching it is a foreign call outside the verified core.
#[derive(Clone, Copy, Debug, PartialEq, Eq, Structural)]
pub struct V8Exception {
    raw_id: u64,
}

impl V8Exception {
    /// The identity the foreign side knows this exception by.
    pub closed spec fn id(&self) -> u64 {
        self.raw_id
    }

    /// Wrap the identity a trampoline received.
    pub fn from_raw_id(raw_id: u64) -> (e: Self)
        ensures
            e.id() == raw_id,
    {
        V8Exception { raw_id }
    }

    /// The wrapped identity.
    pub fn raw_id(&self) -> (r: u64)
        ensures
            r == self.id(),
    {
        self.raw_id
    }
}

} // verus!
