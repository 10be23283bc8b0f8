//! The client: the root capability object a browser is created with.
//!
//! A client bundles the per-browser capabilities.  Each `get_*` slot either
//! declines the capability (`None`, which reaches the foreign side as a
//! null pointer meaning "handler absent") or hands out a handler that the
//! shim wraps into a fresh dispatch object with a single reference.

use vstd::prelude::*;

verus! {

use crate::browser::Browser;
use crate::frame::Frame;
use crate::life_span_handler::LifeSpanHandler;
use crate::load_handler::LoadHandler;
use crate::process::ProcessMessage;
use crate::rc::DispatchObject;
use crate::render_handler::RenderHandler;
use crate::types::ProcessId;
use crate::types::bool_to_int;

/// The capability bundle for one browser.  Every slot is declined by
/// default, and an unhandled process message is reported as unhandled.
pub trait Client: Sized {
    type RenderHandler: RenderHandler;

    type LoadHandler: LoadHandler;

    type LifeSpanHandler: LifeSpanHandler;

    /// The rendering capability, if this client implements it.
    fn get_render_handler(&self) -> (r: Option<&Self::RenderHandler>) {
        None
    }

    /// The load-progress capability, if this client implements it.
    fn get_load_handler(&self) -> (r: Option<&Self::LoadHandler>) {
        None
    }

    /// The lifetime capability, if this client implements it.
    fn get_life_span_handler(&self) -> (r: Option<&Self::LifeSpanHandler>) {
        None
    }

    /// A message arrived from another process; return `true` exactly when
    /// it was handled.
    fn on_process_message_received(
        &mut self,
        _browser: Browser,
        _frame: Frame,
        _source_process: ProcessId,
        _message: ProcessMessage,
    ) -> (r: bool) {
        false
    }
}

/// Forwarding shim for the render-handler slot: a declined capability stays
/// `None` (a null pointer on the foreign side), a provided one comes back
/// freshly wrapped with a single reference.
pub fn get_render_handler<'a, C: Client>(this: &'a DispatchObject<C>) -> (r: Option<
    DispatchObject<&'a C::RenderHandler>,
>)
    ensures
        match r {
            Some(h) => h.count() == 1,
            None => true,
        },
{
    let client = this.interface();
    match client.get_render_handler() {
        Some(h) => Some(DispatchObject::new(h)),
        None => None,
    }
}

/// Forwarding shim for the load-handler slot.
pub fn get_load_handler<'a, C: Client>(this: &'a DispatchObject<C>) -> (r: Option<
    DispatchObject<&'a C::LoadHandler>,
>)
    ensures
        match r {
            Some(h) => h.count() == 1,
            None => true,
        },
{
    let client = this.interface();
    match client.get_load_handler() {
        Some(h) => Some(DispatchObject::new(h)),
        None => None,
    }
}

/// Forwarding shim for the life-span-handler slot.
pub fn get_life_span_handler<'a, C: Client>(this: &'a DispatchObject<C>) -> (r: Option<
    DispatchObject<&'a C::LifeSpanHandler>,
>)
    ensures
        match r {
            Some(h) => h.count() == 1,
            None => true,
        },
{
    let client = this.interface();
    match client.get_life_span_handler() {
        Some(h) => Some(DispatchObject::new(h)),
        None => None,
    }
}

/// Forwarding shim for a process message: decodes the source process,
/// forwards, and reports the handler's answer in the foreign encoding.
pub fn on_process_message_received<C: Client>(
    this: &mut DispatchObject<C>,
    browser_id: u64,
    frame_id: u64,
    source_process: u32,
    message_id: u64,
) -> (r: i32)
    ensures
        final(this).count() == old(this).count(),
        r == 0 || r == 1,
{
    let browser = Browser::from_raw_id(browser_id);
    let frame = Frame::from_raw_id(frame_id);
    let source = ProcessId::from_code(source_process);
    let message = ProcessMessage::from_raw_id(message_id);
    let client = this.interface_mut();
    let handled = client.on_process_message_received(browser, frame, source, message);
    bool_to_int(handled)
}

} // verus!
