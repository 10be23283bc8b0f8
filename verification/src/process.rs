//! Inter-process messages.

use vstd::prelude::*;

verus! {

/// Non-owning view of a foreign inter-process message: the identity the
/// foreign side hands to a callback.
#[derive(Clone, Copy, Debug, PartialEq, Eq, Structural)]
pub struct ProcessMessage {
    raw_id: u64,
}

impl ProcessMessage {
    /// The identity the foreign side knows this message by.
    pub closed spec fn id(&self) -> u64 {
        self.raw_id
    }

    /// Wrap the identity a trampoline received.
    pub fn from_raw_id(raw_id: u64) -> (m: Self)
        ensures
            m.id() == raw_id,
    {
        ProcessMessage { raw_id }
    }

    /// The wrapped identity.
    pub fn raw_id(&self) -> (r: u64)
        ensures
            r == self.id(),
    {
        self.raw_id
    }
}

} // verus!
