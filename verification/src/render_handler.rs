//! Off-screen rendering callbacks.
//!
//! With windowless rendering the foreign library asks the handler for
//! geometry and pushes pixel buffers at it.  Every callback has a
//! conservative default: geometry queries answer "unconfigured" (`None`, or
//! the all-zero rectangle), notifications do nothing, so a handler
//! overrides only the slots it cares about.  Screen-info, accelerated-paint
//! and scroll-offset callbacks carry floating-point factors and platform
//! pixmap planes the verified core cannot model; they stay in the raw
//! layer.

use vstd::prelude::*;

verus! {

use crate::browser::Browser;
use crate::rc::DispatchObject;
use crate::render_utils::CefPoint;
use crate::render_utils::CefRange;
use crate::render_utils::CefRect;
use crate::render_utils::PaintElementType;
use crate::string::CefString;
use crate::string::string_or_fallback;
use crate::types::DragOperationsMask;
use crate::types::TextInputMode;
use crate::types::int_to_bool;

/// Callbacks for off-screen rendering.  Unimplemented geometry queries
/// report "unconfigured" and unimplemented notifications are ignored.
pub trait RenderHandler: Sized {
    /// The rectangle of the whole screen, if the handler models one.
    fn get_root_screen_rect(&mut self, _browser: &Browser) -> (r: Option<CefRect>) {
        None
    }

    /// The rectangle the view occupies; an unconfigured handler reports the
    /// all-zero rectangle.
    fn get_view_rect(&mut self, _browser: &Browser) -> (r: CefRect) {
        CefRect::new()
    }

    /// Translate a view point to screen coordinates, if the handler models
    /// a screen.
    fn get_screen_point(&mut self, _browser: &Browser, _view: CefPoint) -> (r: Option<CefPoint>) {
        None
    }

    /// A pop-up widget overlay appeared or went away.
    fn on_popup_show(&mut self, _browser: &Browser, _show: bool) {
    }

    /// The pop-up overlay moved or resized.
    fn on_popup_size(&mut self, _browser: &Browser, _rect: CefRect) {
    }

    /// A freshly rendered pixel buffer for the given surface, with the
    /// dirty rectangles that changed.
    fn on_paint(
        &mut self,
        _browser: &Browser,
        _paint_type: PaintElementType,
        _dirty_rects: &Vec<CefRect>,
        _bytes: &Vec<u8>,
        _width: i32,
        _height: i32,
    ) {
    }

    /// The drag cursor should change.
    fn update_drag_cursor(&mut self, _browser: &Browser, _operation: DragOperationsMask) {
    }

    /// The input-method composition range moved.
    fn on_ime_composition_range_changed(
        &mut self,
        _browser: &Browser,
        _selected_range: CefRange,
        _character_bounds: &Vec<CefRect>,
    ) {
    }

    /// The text selection changed.
    fn on_text_selection_changed(
        &mut self,
        _browser: &Browser,
        _selected_text: CefString,
        _selected_range: CefRange,
    ) {
    }

    /// The page asked for an on-screen keyboard.
    fn on_virtual_keyboard_requested(&mut self, _browser: &Browser, _input_mode: TextInputMode) {
    }
}

impl RenderHandler for () {
    /// The default: no screen is modelled.
    fn get_root_screen_rect(&mut self, _browser: &Browser) -> (r: Option<CefRect>)
        ensures
            r is None,
    {
        None
    }

    /// The default: the all-zero rectangle of an unconfigured view.
    fn get_view_rect(&mut self, _browser: &Browser) -> (r: CefRect)
        ensures
            r == (CefRect { x: 0, y: 0, width: 0, height: 0 }),
    {
        CefRect::new()
    }

    /// The default: no translation to screen coordinates.
    fn get_screen_point(&mut self, _browser: &Browser, _view: CefPoint) -> (r: Option<CefPoint>)
        ensures
            r is None,
    {
        None
    }
}

/// Marshal an optional rectangle into the foreign success-flag-plus-output
/// form: a provided rectangle is written to the output slot and announced
/// with one; absence is announced with zero and leaves the slot untouched.
pub fn marshal_optional_rect(res: Option<CefRect>, rect: &mut CefRect) -> (r: i32)
    ensures
        match res {
            Some(v) => r == 1 && *final(rect) == v,
            None => r == 0 && *final(rect) == *old(rect),
        },
{
    match res {
        Some(v) => {
            *rect = v;
            1
        },
        None => 0,
    }
}

/// Marshal an optional point into the foreign success-flag-plus-outputs
/// form: a provided point is written to the two output slots and announced
/// with one; absence is announced with zero and leaves both untouched.
pub fn marshal_optional_point(
    res: Option<CefPoint>,
    screen_x: &mut i32,
    screen_y: &mut i32,
) -> (r: i32)
    ensures
        match res {
            Some(p) => r == 1 && *final(screen_x) == p.x && *final(screen_y) == p.y,
            None => r == 0 && *final(screen_x) == *old(screen_x) && *final(screen_y) == *old(
                screen_y,
            ),
        },
{
    match res {
        Some(p) => {
            *screen_x = p.x;
            *screen_y = p.y;
            1
        },
        None => 0,
    }
}

/// Write a mandatory rectangle answer to the foreign output slot.
pub fn write_rect(res: CefRect, rect: &mut CefRect)
    ensures
        *final(rect) == res,
{
    *rect = res;
}

/// Forwarding shim for the root-screen-rect query: a provided rectangle is
/// written to the foreign output slot and announced with one; absence is
/// announced with zero and leaves the slot untouched.
pub fn get_root_screen_rect<R: RenderHandler>(
    this: &mut DispatchObject<R>,
    browser_id: u64,
    rect: &mut CefRect,
) -> (r: i32)
    ensures
        final(this).count() == old(this).count(),
        r == 0 || r == 1,
        r == 0 ==> *final(rect) == *old(rect),
{
    let browser = Browser::from_raw_id(browser_id);
    let handler = this.interface_mut();
    let res = handler.get_root_screen_rect(&browser);
    marshal_optional_rect(res, rect)
}

/// Forwarding shim for the view-rect query: the handler's answer is written
/// to the foreign output slot.
pub fn get_view_rect<R: RenderHandler>(
    this: &mut DispatchObject<R>,
    browser_id: u64,
    rect: &mut CefRect,
)
    ensures
        final(this).count() == old(this).count(),
{
    let browser = Browser::from_raw_id(browser_id);
    let handler = this.interface_mut();
    let res = handler.get_view_rect(&browser);
    write_rect(res, rect);
}

/// Forwarding shim for the point-translation query, with the two foreign
/// output slots for the translated coordinates; reporting absence leaves
/// both slots untouched.
pub fn get_screen_point<R: RenderHandler>(
    this: &mut DispatchObject<R>,
    browser_id: u64,
    view_x: i32,
    view_y: i32,
    screen_x: &mut i32,
    screen_y: &mut i32,
) -> (r: i32)
    ensures
        final(this).count() == old(this).count(),
        r == 0 || r == 1,
        r == 0 ==> *final(screen_x) == *old(screen_x) && *final(screen_y) == *old(screen_y),
{
    let browser = Browser::from_raw_id(browser_id);
    let view_point = CefPoint { x: view_x, y: view_y };
    let handler = this.interface_mut();
    let res = handler.get_screen_point(&browser, view_point);
    marshal_optional_point(res, screen_x, screen_y)
}

/// The documented defaults of an unconfigured render handler, observed
/// through a dispatch object: the root-screen-rect and screen-point
/// queries report absence and leave their output slots untouched, and the
/// view-rect query delivers the all-zero rectangle.
pub fn unconfigured_render_handler_scenario(
    browser_id: u64,
    rect: &mut CefRect,
    screen_x: &mut i32,
    screen_y: &mut i32,
) -> (flags: (i32, i32))
    ensures
        flags.0 == 0,
        flags.1 == 0,
        *final(rect) == (CefRect { x: 0, y: 0, width: 0, height: 0 }),
        *final(screen_x) == *old(screen_x),
        *final(screen_y) == *old(screen_y),
{
    let mut obj = DispatchObject::new(());
    let browser = Browser::from_raw_id(browser_id);
    let handler = obj.interface_mut();
    let root = handler.get_root_screen_rect(&browser);
    let root_flag = marshal_optional_rect(root, rect);
    let handler = obj.interface_mut();
    let view = handler.get_view_rect(&browser);
    write_rect(view, rect);
    let handler = obj.interface_mut();
    let point = handler.get_screen_point(&browser, CefPoint { x: 0, y: 0 });
    let point_flag = marshal_optional_point(point, screen_x, screen_y);
    let _ = obj.release();
    (root_flag, point_flag)
}

/// Forwarding shim for the pop-up visibility notification.
pub fn on_popup_show<R: RenderHandler>(this: &mut DispatchObject<R>, browser_id: u64, show: i32)
    ensures
        final(this).count() == old(this).count(),
{
    let browser = Browser::from_raw_id(browser_id);
    let visible = int_to_bool(show);
    let handler = this.interface_mut();
    handler.on_popup_show(&browser, visible);
}

/// Forwarding shim for the pop-up geometry notification.
pub fn on_popup_size<R: RenderHandler>(this: &mut DispatchObject<R>, browser_id: u64, rect: CefRect)
    ensures
        final(this).count() == old(this).count(),
{
    let browser = Browser::from_raw_id(browser_id);
    let handler = this.interface_mut();
    handler.on_popup_size(&browser, rect);
}

/// Forwarding shim for a rendered pixel buffer.
pub fn on_paint<R: RenderHandler>(
    this: &mut DispatchObject<R>,
    browser_id: u64,
    paint_type: u32,
    dirty_rects: &Vec<CefRect>,
    bytes: &Vec<u8>,
    width: i32,
    height: i32,
)
    ensures
        final(this).count() == old(this).count(),
{
    let browser = Browser::from_raw_id(browser_id);
    let surface = PaintElementType::from_code(paint_type);
    let handler = this.interface_mut();
    handler.on_paint(&browser, surface, dirty_rects, bytes, width, height);
}

/// Forwarding shim for the drag-cursor notification.
pub fn update_drag_cursor<R: RenderHandler>(
    this: &mut DispatchObject<R>,
    browser_id: u64,
    operation: u32,
)
    ensures
        final(this).count() == old(this).count(),
{
    let browser = Browser::from_raw_id(browser_id);
    let handler = this.interface_mut();
    handler.update_drag_cursor(&browser, DragOperationsMask(operation));
}

/// Forwarding shim for the composition-range notification.
pub fn on_ime_composition_range_changed<R: RenderHandler>(
    this: &mut DispatchObject<R>,
    browser_id: u64,
    selected_range: CefRange,
    character_bounds: &Vec<CefRect>,
)
    ensures
        final(this).count() == old(this).count(),
{
    let browser = Browser::from_raw_id(browser_id);
    let handler = this.interface_mut();
    handler.on_ime_composition_range_changed(&browser, selected_range, character_bounds);
}

/// Forwarding shim for the selection notification.  A selection that did
/// not convert is delivered as the empty string.
pub fn on_text_selection_changed<R: RenderHandler>(
    this: &mut DispatchObject<R>,
    browser_id: u64,
    selected_text: Option<CefString>,
    selected_range: CefRange,
)
    ensures
        final(this).count() == old(this).count(),
{
    let browser = Browser::from_raw_id(browser_id);
    let text = string_or_fallback(selected_text, "");
    let handler = this.interface_mut();
    handler.on_text_selection_changed(&browser, text, selected_range);
}

/// Forwarding shim for the keyboard request.
pub fn on_virtual_keyboard_requested<R: RenderHandler>(
    this: &mut DispatchObject<R>,
    browser_id: u64,
    input_mode: u32,
)
    ensures
        final(this).count() == old(this).count(),
{
    let browser = Browser::from_raw_id(browser_id);
    let handler = this.interface_mut();
    handler.on_virtual_keyboard_requested(&browser, TextInputMode(input_mode));
}

} // verus!
