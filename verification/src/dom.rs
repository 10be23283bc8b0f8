//! Document nodes.

use vstd::prelude::*;

verus! {

/// Non-owning view of a foreign document node.
#[derive(Clone, Copy, Debug, PartialEq, Eq, Structural)]
pub struct DomNode {
    raw_id: u64,
}

impl DomNode {
    /// The identity the foreign side knows this node by.
    pub closed spec fn id(&self) -> u64 {
        self.raw_id
    }

    /// Wrap the identity a trampoline received.
    pub fn from_raw_id(raw_id: u64) -> (n: Self)
        ensures
            n.id() == raw_id,
    {
        DomNode { raw_id }
    }

    /// The wrapped identity.
    pub fn raw_id(&self) -> (r: u64)
        ensures
            r == self.id(),
    {
        self.raw_id
    }
}

} // verus!
