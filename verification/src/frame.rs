//! Frame handles.

use vstd::prelude::*;

verus! {

/// Non-owning view of a foreign frame object: the identity the foreign side
/// hands to a callback, valid for the duration of that callback.
#[derive(Clone, Copy, Debug, PartialEq, Eq, Structural)]
pub struct Frame {
    raw_id: u64,
}

impl Frame {
    /// The identity the foreign side knows this frame by.
    pub closed spec fn id(&self) -> u64 {
        self.raw_id
    }

    /// Wrap the identity a trampoline received.
    pub fn from_raw_id(raw_id: u64) -> (f: Self)
        ensures
            f.id() == raw_id,
    {
        Frame { raw_id }
    }

    /// The wrapped identity.
    pub fn raw_id(&self) -> (r: u64)
        ensures
            r == self.id(),
    {
        self.raw_id
    }
}

} // verus!
