//! Browser lifetime callbacks.
//!
//! The foreign library reports the browser lifecycle through these
//! notifications, in the order it drives them: creation, a close request,
//! and the final notification before the browser object goes away.

use vstd::prelude::*;

verus! {

use crate::browser::Browser;
use crate::rc::DispatchObject;
use crate::types::bool_to_int;

/// Callbacks around a browser's lifetime.  Every method has a conservative
/// default: creation and teardown are ignored, and a close request is not
/// intercepted.
pub trait LifeSpanHandler: Sized {
    /// A browser finished being created.
    fn on_after_created(&mut self, _browser: Browser) {
    }

    /// The browser asks whether the close may proceed; returning `true`
    /// claims the close and stops the default teardown.
    fn do_close(&mut self, _browser: Browser) -> (r: bool) {
        false
    }

    /// Delivered last, just before the browser object is destroyed.
    fn on_before_close(&mut self, _browser: Browser) {
    }
}

impl LifeSpanHandler for () {
    /// The default: the close is not intercepted.
    fn do_close(&mut self, _browser: Browser) -> (r: bool)
        ensures
            r == false,
    {
        false
    }
}

/// Forwarding shim for the creation notification, leaving the reference
/// count alone.
pub fn on_after_created<L: LifeSpanHandler>(this: &mut DispatchObject<L>, browser_id: u64)
    ensures
        final(this).count() == old(this).count(),
{
    let browser = Browser::from_raw_id(browser_id);
    let handler = this.interface_mut();
    handler.on_after_created(browser);
}

/// Forwarding shim for the close request: the handler's boolean answer goes
/// back in the foreign encoding, one for claimed and zero for declined.
pub fn do_close<L: LifeSpanHandler>(this: &mut DispatchObject<L>, browser_id: u64) -> (r: i32)
    ensures
        final(this).count() == old(this).count(),
        r == 0 || r == 1,
{
    let browser = Browser::from_raw_id(browser_id);
    let handler = this.interface_mut();
    let claimed = handler.do_close(browser);
    bool_to_int(claimed)
}

/// Forwarding shim for the final teardown notification.
pub fn on_before_close<L: LifeSpanHandler>(this: &mut DispatchObject<L>, browser_id: u64)
    ensures
        final(this).count() == old(this).count(),
{
    let browser = Browser::from_raw_id(browser_id);
    let handler = this.interface_mut();
    handler.on_before_close(browser);
}

} // verus!
