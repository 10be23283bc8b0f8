//! Load progress callbacks.
//!
//! A load handler observes the loading state machine the foreign library
//! drives: the overall loading flag flips on and off once per navigation,
//! with per-frame start, end and error notifications in between.  The
//! trampolines here are the verified halves of the forwarding shims: they
//! convert the foreign argument encodings, recover the handler from its
//! dispatch object and forward in order, without touching the reference
//! count.

use vstd::prelude::*;

verus! {

use crate::browser::Browser;
use crate::frame::Frame;
use crate::rc::DispatchObject;
use crate::string::CefString;
use crate::string::string_or_fallback;
use crate::types::ErrorCode;
use crate::types::TransitionType;
use crate::types::int_to_bool;

/// Callbacks reporting load progress.  Every method has a no-op default, so
/// an implementor overrides only the notifications it cares about.
pub trait LoadHandler: Sized {
    /// The overall loading state changed.  Delivered once when loading
    /// starts and once when it ends, before any `on_load_start` and after
    /// all `on_load_end` / `on_load_error` of the navigation.
    fn on_loading_state_change(
        &mut self,
        _browser: &Browser,
        _is_loading: bool,
        _can_go_back: bool,
        _can_go_forward: bool,
    ) {
    }

    /// A committed navigation began loading content into a frame.
    fn on_load_start(
        &mut self,
        _browser: &Browser,
        _frame: &mut Frame,
        _transition_type: TransitionType,
    ) {
    }

    /// A frame finished loading.
    fn on_load_end(&mut self, _browser: &Browser, _frame: &mut Frame, _http_status_code: i32) {
    }

    /// A navigation failed or was canceled.
    fn on_load_error(
        &mut self,
        _browser: &Browser,
        _frame: &mut Frame,
        _error_code: ErrorCode,
        _error_text: CefString,
        _failed_url: CefString,
    ) {
    }
}

impl LoadHandler for () {
    /// The default: the notification is ignored.
    fn on_loading_state_change(
        &mut self,
        _browser: &Browser,
        _is_loading: bool,
        _can_go_back: bool,
        _can_go_forward: bool,
    ) {
    }

    /// The default: the notification is ignored and the frame is left
    /// alone.
    fn on_load_start(
        &mut self,
        _browser: &Browser,
        frame: &mut Frame,
        _transition_type: TransitionType,
    )
        ensures
            *final(frame) == *old(frame),
    {
    }

    /// The default: the notification is ignored and the frame is left
    /// alone.
    fn on_load_end(&mut self, _browser: &Browser, frame: &mut Frame, _http_status_code: i32)
        ensures
            *final(frame) == *old(frame),
    {
    }

    /// The default: the notification is ignored and the frame is left
    /// alone.
    fn on_load_error(
        &mut self,
        _browser: &Browser,
        frame: &mut Frame,
        _error_code: ErrorCode,
        _error_text: CefString,
        _failed_url: CefString,
    )
        ensures
            *final(frame) == *old(frame),
    {
    }
}

/// Forwarding shim for the loading-state notification: decodes the three
/// foreign flags and forwards, leaving the reference count alone.
pub fn on_loading_state_change<L: LoadHandler>(
    this: &mut DispatchObject<L>,
    browser_id: u64,
    is_loading: i32,
    can_go_back: i32,
    can_go_forward: i32,
)
    ensures
        final(this).count() == old(this).count(),
{
    let browser = Browser::from_raw_id(browser_id);
    let loading = int_to_bool(is_loading);
    let back = int_to_bool(can_go_back);
    let forward = int_to_bool(can_go_forward);
    let handler = this.interface_mut();
    handler.on_loading_state_change(&browser, loading, back, forward);
}

/// Forwarding shim for the load-start notification.
pub fn on_load_start<L: LoadHandler>(
    this: &mut DispatchObject<L>,
    browser_id: u64,
    frame_id: u64,
    transition_type: u32,
)
    ensures
        final(this).count() == old(this).count(),
{
    let browser = Browser::from_raw_id(browser_id);
    let mut frame = Frame::from_raw_id(frame_id);
    let handler = this.interface_mut();
    handler.on_load_start(&browser, &mut frame, TransitionType(transition_type));
}

/// Forwarding shim for the load-end notification.
pub fn on_load_end<L: LoadHandler>(
    this: &mut DispatchObject<L>,
    browser_id: u64,
    frame_id: u64,
    http_status_code: i32,
)
    ensures
        final(this).count() == old(this).count(),
{
    let browser = Browser::from_raw_id(browser_id);
    let mut frame = Frame::from_raw_id(frame_id);
    let handler = this.interface_mut();
    handler.on_load_end(&browser, &mut frame, http_status_code);
}

/// Forwarding shim for the load-error notification.  A foreign string that
/// did not convert is replaced by a sentinel before the handler sees it.
pub fn on_load_error<L: LoadHandler>(
    this: &mut DispatchObject<L>,
    browser_id: u64,
    frame_id: u64,
    error_code: i32,
    error_text: Option<CefString>,
    failed_url: Option<CefString>,
)
    ensures
        final(this).count() == old(this).count(),
{
    let browser = Browser::from_raw_id(browser_id);
    let mut frame = Frame::from_raw_id(frame_id);
    let text = string_or_fallback(error_text, "unknown error");
    let url = string_or_fallback(failed_url, "url conversion failed");
    let handler = this.interface_mut();
    handler.on_load_error(&browser, &mut frame, ErrorCode(error_code), text, url);
}

/// One observed loading-state notification.
#[derive(Clone, Copy, Debug, PartialEq, Eq, Structural)]
pub struct LoadStateEvent {
    pub is_loading: bool,
    pub can_go_back: bool,
    pub can_go_forward: bool,
}

/// The event a loading-state notification with these flags is recorded as.
pub open spec fn load_event(is_loading: bool, can_go_back: bool, can_go_forward: bool)
    -> LoadStateEvent {
    LoadStateEvent { is_loading, can_go_back, can_go_forward }
}

/// A handler that records every loading-state notification it receives, in
/// the order of delivery.
#[derive(Debug)]
pub struct LoadStateRecorder {
    pub events: Vec<LoadStateEvent>,
}

impl LoadStateRecorder {
    /// A recorder that has seen nothing yet.
    pub fn new() -> (r: Self)
        ensures
            r.events@ == Seq::<LoadStateEvent>::empty(),
    {
        LoadStateRecorder { events: Vec::new() }
    }
}

impl LoadHandler for LoadStateRecorder {
    /// Appends exactly one event per delivery, keeping all earlier ones in
    /// place.
    fn on_loading_state_change(
        &mut self,
        _browser: &Browser,
        is_loading: bool,
        can_go_back: bool,
        can_go_forward: bool,
    )
        ensures
            final(self).events@ == old(self).events@.push(
                load_event(is_loading, can_go_back, can_go_forward),
            ),
    {
        self.events.push(LoadStateEvent { is_loading, can_go_back, can_go_forward });
    }
}

/// Delivering two loading-state notifications to a freshly wrapped recorder
/// and then releasing the object's last reference yields exactly those two
/// events, in delivery order, with no duplication or loss.
pub fn loading_state_scenario(
    browser: &Browser,
    first: LoadStateEvent,
    second: LoadStateEvent,
) -> (events: Vec<LoadStateEvent>)
    ensures
        events@ == seq![first, second],
{
    let mut obj = DispatchObject::new(LoadStateRecorder::new());
    let handler = obj.interface_mut();
    handler.on_loading_state_change(
        browser,
        first.is_loading,
        first.can_go_back,
        first.can_go_forward,
    );
    let handler = obj.interface_mut();
    handler.on_loading_state_change(
        browser,
        second.is_loading,
        second.can_go_back,
        second.can_go_forward,
    );
    match obj.release() {
        crate::rc::ReleaseOutcome::Destroyed(recorder) => {
            assert(recorder.events@ =~= seq![first, second]);
            recorder.events
        },
        crate::rc::ReleaseOutcome::Retained(_) => {
            assert(false);
            Vec::new()
        },
    }
}

} // verus!
