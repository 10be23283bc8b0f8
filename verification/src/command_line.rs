//! Command-line handles.

use vstd::prelude::*;

verus! {

/// Non-owning view of a foreign command-line object.  Reading and editing
/// the switches goes through the foreign library and stays outside the
/// verified core; the handle carries the object's identity through the
/// process-handler callbacks.
#[derive(Clone, Copy, Debug, PartialEq, Eq, Structural)]
pub struct CommandLine {
    raw_id: u64,
}

impl CommandLine {
    /// The identity the foreign side knows this command line by.
    pub closed spec fn id(&self) -> u64 {
        self.raw_id
    }

    /// Wrap the identity a trampoline received.
    pub fn from_raw_id(raw_id: u64) -> (c: Self)
        ensures
            c.id() == raw_id,
    {
        CommandLine { raw_id }
    }

    /// The wrapped identity.
    pub fn raw_id(&self) -> (r: u64)
        ensures
            r == self.id(),
    {
        self.raw_id
    }
}

} // verus!
