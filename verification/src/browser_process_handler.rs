//! Browser-process callbacks.

use vstd::prelude::*;

verus! {

use crate::command_line::CommandLine;
use crate::rc::DispatchObject;

/// Callbacks delivered in the browser process.  All are ignored by
/// default.
pub trait BrowserProcessHandler: Sized {
    /// The foreign context finished initializing.
    fn on_context_initialized(&mut self) {
    }

    /// A child process is about to launch with this command line.
    fn on_before_child_process_launch(&mut self, _command_line: CommandLine) {
    }

    /// With an external message pump, more pump work should be scheduled
    /// after at most this many milliseconds.
    fn on_schedule_message_pump_work(&mut self, _delay_ms: i64) {
    }
}

impl BrowserProcessHandler for () {
}

/// Forwarding shim for the initialization notification, leaving the
/// reference count alone.
pub fn on_context_initialized<H: BrowserProcessHandler>(this: &mut DispatchObject<H>)
    ensures
        final(this).count() == old(this).count(),
{
    let handler = this.interface_mut();
    handler.on_context_initialized();
}

/// Forwarding shim for the child-process notification.
pub fn on_before_child_process_launch<H: BrowserProcessHandler>(
    this: &mut DispatchObject<H>,
    command_line_id: u64,
)
    ensures
        final(this).count() == old(this).count(),
{
    let cmd = CommandLine::from_raw_id(command_line_id);
    let handler = this.interface_mut();
    handler.on_before_child_process_launch(cmd);
}

/// Forwarding shim for the pump-work request.
pub fn on_schedule_message_pump_work<H: BrowserProcessHandler>(
    this: &mut DispatchObject<H>,
    delay_ms: i64,
)
    ensures
        final(this).count() == old(this).count(),
{
    let handler = this.interface_mut();
    handler.on_schedule_message_pump_work(delay_ms);
}

} // verus!
