//! Renderer-process callbacks.

use vstd::prelude::*;

verus! {

use crate::browser::Browser;
use crate::dom::DomNode;
use crate::frame::Frame;
use crate::load_handler::LoadHandler;
use crate::process::ProcessMessage;
use crate::rc::DispatchObject;
use crate::types::ProcessId;
use crate::types::bool_to_int;
use crate::v8_context::V8Context;
use crate::v8_exception::V8Exception;
use crate::v8_stack_trace::V8StackTrace;
use crate::values::DictionaryValue;

/// Callbacks delivered in the renderer process.  All are ignored by
/// default, the load-handler slot is declined, and an unhandled process
/// message is reported as unhandled.
pub trait RenderProcessHandler: Sized {
    type LoadHandler: LoadHandler;

    /// The rendering engine finished initializing.
    fn on_webkit_initialized(&mut self) {
    }

    /// A browser object appeared in this process.
    fn on_browser_created(&mut self, _browser: Browser, _extra_info: DictionaryValue) {
    }

    /// A browser object went away.
    fn on_browser_destroyed(&mut self, _browser: Browser) {
    }

    /// The renderer-side load-progress capability, if implemented.
    fn get_load_handler(&self) -> (r: Option<&Self::LoadHandler>) {
        None
    }

    /// A script context was created for a frame.
    fn on_context_created(&mut self, _browser: Browser, _frame: Frame, _context: V8Context) {
    }

    /// A script context was released.
    fn on_context_released(&mut self, _browser: Browser, _frame: Frame, _context: V8Context) {
    }

    /// Script in a frame threw an exception nobody caught.
    fn on_uncaught_exception(
        &mut self,
        _browser: Browser,
        _frame: Frame,
        _context: V8Context,
        _exception: V8Exception,
        _stack_trace: V8StackTrace,
    ) {
    }

    /// Keyboard focus moved to another document node.
    fn on_focused_node_changed(&mut self, _browser: Browser, _frame: Frame, _node: DomNode) {
    }

    /// A message arrived from another process; return `true` exactly when
    /// it was handled.
    fn on_process_message_received(
        &mut self,
        _browser: Browser,
        _frame: Frame,
        _source_process: ProcessId,
        _message: ProcessMessage,
    ) -> (r: bool) {
        false
    }
}

impl RenderProcessHandler for () {
    type LoadHandler = ();

    /// The default: the capability is declined.
    fn get_load_handler(&self) -> (r: Option<&()>)
        ensures
            r is None,
    {
        None
    }

    /// The default: the message is reported as unhandled.
    fn on_process_message_received(
        &mut self,
        _browser: Browser,
        _frame: Frame,
        _source_process: ProcessId,
        _message: ProcessMessage,
    ) -> (r: bool)
        ensures
            r == false,
    {
        false
    }
}

/// Forwarding shim for the engine-initialization notification, leaving the
/// reference count alone.
pub fn on_webkit_initialized<R: RenderProcessHandler>(this: &mut DispatchObject<R>)
    ensures
        final(this).count() == old(this).count(),
{
    let handler = this.interface_mut();
    handler.on_webkit_initialized();
}

/// Forwarding shim for the browser-created notification.
pub fn on_browser_created<R: RenderProcessHandler>(
    this: &mut DispatchObject<R>,
    browser_id: u64,
    extra_info_id: u64,
)
    ensures
        final(this).count() == old(this).count(),
{
    let browser = Browser::from_raw_id(browser_id);
    let extra_info = DictionaryValue::from_raw_id(extra_info_id);
    let handler = this.interface_mut();
    handler.on_browser_created(browser, extra_info);
}

/// Forwarding shim for the browser-destroyed notification.
pub fn on_browser_destroyed<R: RenderProcessHandler>(this: &mut DispatchObject<R>, browser_id: u64)
    ensures
        final(this).count() == old(this).count(),
{
    let browser = Browser::from_raw_id(browser_id);
    let handler = this.interface_mut();
    handler.on_browser_destroyed(browser);
}

/// Forwarding shim for the load-handler slot: a declined capability stays
/// `None` (a null pointer on the foreign side), a provided one comes back
/// freshly wrapped with a single reference.
pub fn get_load_handler<'a, R: RenderProcessHandler>(this: &'a DispatchObject<R>) -> (r: Option<
    DispatchObject<&'a R::LoadHandler>,
>)
    ensures
        match r {
            Some(h) => h.count() == 1,
            None => true,
        },
{
    let handler = this.interface();
    match handler.get_load_handler() {
        Some(h) => Some(DispatchObject::new(h)),
        None => None,
    }
}

/// Forwarding shim for the context-created notification.
pub fn on_context_created<R: RenderProcessHandler>(
    this: &mut DispatchObject<R>,
    browser_id: u64,
    frame_id: u64,
    context_id: u64,
)
    ensures
        final(this).count() == old(this).count(),
{
    let browser = Browser::from_raw_id(browser_id);
    let frame = Frame::from_raw_id(frame_id);
    let context = V8Context::from_raw_id(context_id);
    let handler = this.interface_mut();
    handler.on_context_created(browser, frame, context);
}

/// Forwarding shim for the context-released notification.
pub fn on_context_released<R: RenderProcessHandler>(
    this: &mut DispatchObject<R>,
    browser_id: u64,
    frame_id: u64,
    context_id: u64,
)
    ensures
        final(this).count() == old(this).count(),
{
    let browser = Browser::from_raw_id(browser_id);
    let frame = Frame::from_raw_id(frame_id);
    let context = V8Context::from_raw_id(context_id);
    let handler = this.interface_mut();
    handler.on_context_released(browser, frame, context);
}

/// Forwarding shim for the uncaught-exception notification.
pub fn on_uncaught_exception<R: RenderProcessHandler>(
    this: &mut DispatchObject<R>,
    browser_id: u64,
    frame_id: u64,
    context_id: u64,
    exception_id: u64,
    stack_trace_id: u64,
)
    ensures
        final(this).count() == old(this).count(),
{
    let browser = Browser::from_raw_id(browser_id);
    let frame = Frame::from_raw_id(frame_id);
    let context = V8Context::from_raw_id(context_id);
    let exception = V8Exception::from_raw_id(exception_id);
    let stack_trace = V8StackTrace::from_raw_id(stack_trace_id);
    let handler = this.interface_mut();
    handler.on_uncaught_exception(browser, frame, context, exception, stack_trace);
}

/// Forwarding shim for the focus notification.
pub fn on_focused_node_changed<R: RenderProcessHandler>(
    this: &mut DispatchObject<R>,
    browser_id: u64,
    frame_id: u64,
    node_id: u64,
)
    ensures
        final(this).count() == old(this).count(),
{
    let browser = Browser::from_raw_id(browser_id);
    let frame = Frame::from_raw_id(frame_id);
    let node = DomNode::from_raw_id(node_id);
    let handler = this.interface_mut();
    handler.on_focused_node_changed(browser, frame, node);
}

/// Forwarding shim for a process message: decodes the source process,
/// forwards, and reports the handler's answer in the foreign encoding.
pub fn on_process_message_received<R: RenderProcessHandler>(
    this: &mut DispatchObject<R>,
    browser_id: u64,
    frame_id: u64,
    source_process: u32,
    message_id: u64,
) -> (r: i32)
    ensures
        final(this).count() == old(this).count(),
        r == 0 || r == 1,
{
    let browser = Browser::from_raw_id(browser_id);
    let frame = Frame::from_raw_id(frame_id);
    let source = ProcessId::from_code(source_process);
    let message = ProcessMessage::from_raw_id(message_id);
    let handler = this.interface_mut();
    let handled = handler.on_process_message_received(browser, frame, source, message);
    bool_to_int(handled)
}

} // verus!
