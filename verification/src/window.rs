//! Top-level windows.

use vstd::prelude::*;

verus! {

use crate::rc::DispatchObject;
use crate::render_utils::CefRect;
use crate::string::CefString;
use crate::string::encode_utf16;
use crate::types::bool_to_int;

/// Placement and mode of a new window, a flat mirror of the foreign
/// window-info struct.
#[derive(Debug, Clone)]
pub struct WindowInfo {
    pub window_name: CefString,
    pub bounds: CefRect,
    pub parent_window: u64,
    pub windowless_rendering_enabled: bool,
    pub shared_texture_enabled: bool,
    pub external_begin_frame_enabled: bool,
    pub window: u64,
}

impl Default for WindowInfo {
    /// A plainly named 1280 by 720 window at the origin, with no parent
    /// and on-screen rendering.
    fn default() -> (r: Self)
        ensures
            r.window_name.units() == encode_utf16("UwU"@),
            r.bounds == (CefRect { x: 0, y: 0, width: 1280, height: 720 }),
            r.parent_window == 0,
            r.windowless_rendering_enabled == false,
            r.shared_texture_enabled == false,
            r.external_begin_frame_enabled == false,
            r.window == 0,
    {
        proof {
            reveal_strlit("UwU");
            assert(!"UwU"@.contains('\0')) by {
                if "UwU"@.contains('\0') {
                    let j = choose|j: int|
                        0 <= j < "UwU"@.len() && "UwU"@[j] == '\0';
                }
            }
        }
        WindowInfo {
            window_name: CefString::new("UwU"),
            bounds: CefRect { x: 0, y: 0, width: 1280, height: 720 },
            parent_window: 0,
            windowless_rendering_enabled: false,
            shared_texture_enabled: false,
            external_begin_frame_enabled: false,
            window: 0,
        }
    }
}

impl WindowInfo {
    /// The default placement.
    pub fn new() -> (r: Self)
        ensures
            r.window_name.units() == encode_utf16("UwU"@),
            r.bounds == (CefRect { x: 0, y: 0, width: 1280, height: 720 }),
            r.parent_window == 0,
            r.windowless_rendering_enabled == false,
            r.shared_texture_enabled == false,
            r.external_begin_frame_enabled == false,
            r.window == 0,
    {
        Self::default()
    }
}

/// Non-owning view of a foreign window object.
#[derive(Clone, Copy, Debug, PartialEq, Eq, Structural)]
pub struct Window {
    raw_id: u64,
}

impl Window {
    /// The identity the foreign side knows this window by.
    pub closed spec fn id(&self) -> u64 {
        self.raw_id
    }

    /// Wrap the identity a trampoline received.
    pub fn from_raw_id(raw_id: u64) -> (w: Self)
        ensures
            w.id() == raw_id,
    {
        Window { raw_id }
    }

    /// The wrapped identity.
    pub fn raw_id(&self) -> (r: u64)
        ensures
            r == self.id(),
    {
        self.raw_id
    }
}

/// Callbacks around a top-level window's lifetime.  Creation, closing and
/// destruction are ignored by default, and a close request is allowed.
pub trait WindowDelegate: Sized {
    /// The window finished being created.
    fn on_window_created(&mut self, _window: Window) {
    }

    /// The window is closing.
    fn on_window_closing(&mut self, _window: Window) {
    }

    /// The window was destroyed.
    fn on_window_destroyed(&mut self, _window: Window) {
    }

    /// The window asks whether it may close; returning `false` vetoes the
    /// close.
    fn can_close(&mut self, _window: Window) -> (r: bool) {
        true
    }
}

/// Forwarding shim for the creation notification, leaving the reference
/// count alone.
pub fn on_window_created<D: WindowDelegate>(this: &mut DispatchObject<D>, window_id: u64)
    ensures
        final(this).count() == old(this).count(),
{
    let window = Window::from_raw_id(window_id);
    let delegate = this.interface_mut();
    delegate.on_window_created(window);
}

/// Forwarding shim for the closing notification.
pub fn on_window_closing<D: WindowDelegate>(this: &mut DispatchObject<D>, window_id: u64)
    ensures
        final(this).count() == old(this).count(),
{
    let window = Window::from_raw_id(window_id);
    let delegate = this.interface_mut();
    delegate.on_window_closing(window);
}

/// Forwarding shim for the destruction notification.
pub fn on_window_destroyed<D: WindowDelegate>(this: &mut DispatchObject<D>, window_id: u64)
    ensures
        final(this).count() == old(this).count(),
{
    let window = Window::from_raw_id(window_id);
    let delegate = this.interface_mut();
    delegate.on_window_destroyed(window);
}

/// Forwarding shim for the close request: the delegate's boolean answer
/// goes back in the foreign encoding, one for allowed and zero for vetoed.
pub fn can_close<D: WindowDelegate>(this: &mut DispatchObject<D>, window_id: u64) -> (r: i32)
    ensures
        final(this).count() == old(this).count(),
        r == 0 || r == 1,
{
    let window = Window::from_raw_id(window_id);
    let delegate = this.interface_mut();
    let allowed = delegate.can_close(window);
    bool_to_int(allowed)
}

} // verus!
