//! Script stack-trace handles.

use vstd::prelude::*;

verus! {

/// Non-owning view of a foreign script stack trace.
#[derive(Clone, Copy, Debug, PartialEq, Eq, Structural)]
pub struct V8StackTrace {
    raw_id: u64,
}

impl V8StackTrace {
    /// The identity the foreign side knows this stack trace by.
    pub closed spec fn id(&self) -> u64 {
        self.raw_id
    }

    /// Wrap the identity a trampoline received.
    pub fn from_raw_id(raw_id: u64) -> (t: Self)
        ensures
            t.id() == raw_id,
    {
        V8StackTrace { raw_id }
    }

    /// The wrapped identity.
    pub fn raw_id(&self) -> (r: u64)
        ensures
            r == self.id(),
    {
        self.raw_id
    }
}

} // verus!
