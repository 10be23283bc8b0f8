//! Flat geometry values exchanged with the rendering callbacks: rectangles,
//! points and text ranges.  Each is a plain struct whose foreign
//! counterpart has the same fields; the conversion is field for field, so
//! the verified content is the constructors pinning every field.

use vstd::prelude::*;

verus! {

/// Which surface a paint notification is for: the page itself or the
/// overlay that pop-up widgets draw on.
#[derive(Clone, Copy, Debug, PartialEq, Eq, Structural)]
pub enum PaintElementType {
    View,
    Popup,
}

impl PaintElementType {
    /// The integer the foreign side uses for this surface.
    pub open spec fn code_spec(self) -> u32 {
        match self {
            PaintElementType::View => 0,
            PaintElementType::Popup => 1,
        }
    }

    /// Wire value of the surface.
    pub fn code(&self) -> (r: u32)
        ensures
            r == self.code_spec(),
    {
        match self {
            PaintElementType::View => 0,
            PaintElementType::Popup => 1,
        }
    }

    /// Decode the wire value; anything but the pop-up value names the page
    /// surface.
    pub fn from_code(v: u32) -> (r: PaintElementType)
        ensures
            r == (if v == 1 {
                PaintElementType::Popup
            } else {
                PaintElementType::View
            }),
    {
        if v == 1 {
            PaintElementType::Popup
        } else {
            PaintElementType::View
        }
    }
}

/// A rectangle in view or screen coordinates.
#[derive(Clone, Copy, Debug, PartialEq, Eq, Structural)]
pub struct CefRect {
    pub x: i32,
    pub y: i32,
    pub width: u32,
    pub height: u32,
}

impl Default for CefRect {
    fn default() -> (r: Self)
        ensures
            r == (CefRect { x: 0, y: 0, width: 0, height: 0 }),
    {
        CefRect { x: 0, y: 0, width: 0, height: 0 }
    }
}

impl CefRect {
    /// The all-zero rectangle, the documented answer of an unconfigured
    /// geometry query.
    pub fn new() -> (r: Self)
        ensures
            r == (CefRect { x: 0, y: 0, width: 0, height: 0 }),
    {
        Self::default()
    }
}

/// A point in view or screen coordinates.
#[derive(Clone, Copy, Debug, PartialEq, Eq, Structural)]
pub struct CefPoint {
    pub x: i32,
    pub y: i32,
}

impl Default for CefPoint {
    fn default() -> (r: Self)
        ensures
            r == (CefPoint { x: 0, y: 0 }),
    {
        CefPoint { x: 0, y: 0 }
    }
}

impl CefPoint {
    /// The origin.
    pub fn new() -> (r: Self)
        ensures
            r == (CefPoint { x: 0, y: 0 }),
    {
        Self::default()
    }
}

/// A half-open span of character positions, as used for selections and
/// composition ranges.
#[derive(Clone, Copy, Debug, PartialEq, Eq, Structural)]
pub struct CefRange {
    pub from: u32,
    pub to: u32,
}

impl Default for CefRange {
    fn default() -> (r: Self)
        ensures
            r == (CefRange { from: 0, to: 0 }),
    {
        CefRange { from: 0, to: 0 }
    }
}

impl CefRange {
    /// The empty range at the start of the text.
    pub fn new() -> (r: Self)
        ensures
            r == (CefRange { from: 0, to: 0 }),
    {
        Self::default()
    }
}

} // verus!
