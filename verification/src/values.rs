//! List and dictionary value handles.

use vstd::prelude::*;

verus! {

/// Non-owning view of a foreign list value.
#[derive(Clone, Copy, Debug, PartialEq, Eq, Structural)]
pub struct ListValue {
    raw_id: u64,
}

impl ListValue {
    /// The identity the foreign side knows this list by.
    pub closed spec fn id(&self) -> u64 {
        self.raw_id
    }

    /// Wrap the identity a trampoline received.
    pub fn from_raw_id(raw_id: u64) -> (v: Self)
        ensures
            v.id() == raw_id,
    {
        ListValue { raw_id }
    }

    /// The wrapped identity.
    pub fn raw_id(&self) -> (r: u64)
        ensures
            r == self.id(),
    {
        self.raw_id
    }
}

/// Non-owning view of a foreign dictionary value.
#[derive(Clone, Copy, Debug, PartialEq, Eq, Structural)]
pub struct DictionaryValue {
    raw_id: u64,
}

impl DictionaryValue {
    /// The identity the foreign side knows this dictionary by.
    pub closed spec fn id(&self) -> u64 {
        self.raw_id
    }

    /// Wrap the identity a trampoline received.
    pub fn from_raw_id(raw_id: u64) -> (v: Self)
        ensures
            v.id() == raw_id,
    {
        DictionaryValue { raw_id }
    }

    /// The wrapped identity.
    pub fn raw_id(&self) -> (r: u64)
        ensures
            r == self.id(),
    {
        self.raw_id
    }
}

} // verus!
