//! Task-runner handles.

use vstd::prelude::*;

verus! {

/// Non-owning view of a foreign task runner, the queue of one named foreign
/// thread.  Posting to it goes through the foreign scheduler and stays
/// outside the verified core.
#[derive(Clone, Copy, Debug, PartialEq, Eq, Structural)]
pub struct TaskRunner {
    raw_id: u64,
}

impl TaskRunner {
    /// The identity the foreign side knows this runner by.
    pub closed spec fn id(&self) -> u64 {
        self.raw_id
    }

    /// Wrap the identity the foreign side returned.
    pub fn from_raw_id(raw_id: u64) -> (t: Self)
        ensures
            t.id() == raw_id,
    {
        TaskRunner { raw_id }
    }

    /// The wrapped identity.
    pub fn raw_id(&self) -> (r: u64)
        ensures
            r == self.id(),
    {
        self.raw_id
    }

    /// Two handles name the same runner exactly when their identities
    /// agree.
    pub fn is_same(&self, task_runner: &TaskRunner) -> (r: bool)
        ensures
            r == (self.id() == task_runner.id()),
    {
        self.raw_id == task_runner.raw_id
    }
}

} // verus!
