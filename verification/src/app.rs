//! The application: the per-process capability object handed to the
//! foreign library at startup.

use vstd::prelude::*;

verus! {

use crate::browser_process_handler::BrowserProcessHandler;
use crate::command_line::CommandLine;
use crate::rc::DispatchObject;
use crate::render_process_handler::RenderProcessHandler;
use crate::string::CefString;

/// Process-level capabilities.  Both process-handler slots are declined by
/// default and command-line preprocessing is ignored.
pub trait App: Sized {
    type RenderProcessHandler: RenderProcessHandler;

    type BrowserProcessHandler: BrowserProcessHandler;

    /// The command line is about to be processed; `process_type` is absent
    /// for the browser process.
    fn on_before_command_line_processing(
        &mut self,
        _process_type: Option<CefString>,
        _command_line: CommandLine,
    ) {
    }

    /// The renderer-process capability, if implemented.
    fn get_render_process_handler(&self) -> (r: Option<&Self::RenderProcessHandler>) {
        None
    }

    /// The browser-process capability, if implemented.
    fn get_browser_process_handler(&self) -> (r: Option<&Self::BrowserProcessHandler>) {
        None
    }
}

/// Forwarding shim for command-line preprocessing: a process type that was
/// absent or did not convert is delivered as `None`, leaving the reference
/// count alone.
pub fn on_before_command_line_processing<A: App>(
    this: &mut DispatchObject<A>,
    process_type: Option<CefString>,
    command_line_id: u64,
)
    ensures
        final(this).count() == old(this).count(),
{
    let cmd = CommandLine::from_raw_id(command_line_id);
    let app = this.interface_mut();
    app.on_before_command_line_processing(process_type, cmd);
}

/// Forwarding shim for the renderer-process slot: a declined capability
/// stays `None` (a null pointer on the foreign side), a provided one comes
/// back freshly wrapped with a single reference.
pub fn get_render_process_handler<'a, A: App>(this: &'a DispatchObject<A>) -> (r: Option<
    DispatchObject<&'a A::RenderProcessHandler>,
>)
    ensures
        match r {
            Some(h) => h.count() == 1,
            None => true,
        },
{
    let app = this.interface();
    match app.get_render_process_handler() {
        Some(h) => Some(DispatchObject::new(h)),
        None => None,
    }
}

/// Forwarding shim for the browser-process slot.
pub fn get_browser_process_handler<'a, A: App>(this: &'a DispatchObject<A>) -> (r: Option<
    DispatchObject<&'a A::BrowserProcessHandler>,
>)
    ensures
        match r {
            Some(h) => h.count() == 1,
            None => true,
        },
{
    let app = this.interface();
    match app.get_browser_process_handler() {
        Some(h) => Some(DispatchObject::new(h)),
        None => None,
    }
}

} // verus!
