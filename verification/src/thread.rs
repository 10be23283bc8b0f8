//! One-shot tasks for the foreign scheduler.
//!
//! Work posted to a named foreign thread travels through the same dispatch
//! bridge as every handler: the closure is wrapped in a [`TaskWrapper`],
//! the wrapper in a dispatch object, and the foreign scheduler later
//! invokes the single execute slot.  The wrapper guarantees the work runs
//! at most once: the first delivery takes the closure out, a later one
//! finds nothing.

use vstd::prelude::*;

verus! {

use crate::rc::DispatchObject;

/// A unit of work waiting for its single delivery.
pub struct TaskWrapper<F> {
    func: Option<F>,
}

impl<F: FnOnce()> TaskWrapper<F> {
    /// The work still to run, if it has not run yet.
    pub closed spec fn pending(&self) -> Option<F> {
        self.func
    }

    /// Wrap a unit of work.
    pub fn new(func: F) -> (t: Self)
        ensures
            t.pending() == Some(func),
    {
        TaskWrapper { func: Some(func) }
    }

    /// The execute slot: run the stored work and forget it, so that no
    /// later delivery can run it again.
    pub fn execute(&mut self)
        requires
            match old(self).pending() {
                Some(f) => call_requires(f, ()),
                None => true,
            },
        ensures
            final(self).pending() is None,
            match old(self).pending() {
                Some(f) => call_ensures(f, (), ()),
                None => true,
            },
    {
        match self.func.take() {
            Some(f) => f(),
            None => (),
        }
    }
}

/// Forwarding shim for the execute slot: recovers the wrapper and runs its
/// work, leaving the reference count alone.
pub fn execute<F: FnOnce()>(this: &mut DispatchObject<TaskWrapper<F>>)
    requires
        match old(this).value().pending() {
            Some(f) => call_requires(f, ()),
            None => true,
        },
    ensures
        final(this).count() == old(this).count(),
        final(this).value().pending() is None,
        match old(this).value().pending() {
            Some(f) => call_ensures(f, (), ()),
            None => true,
        },
{
    let task = this.interface_mut();
    task.execute();
}

} // verus!
