//! Browser handles and per-browser settings.

use vstd::prelude::*;

verus! {

use crate::string::CefString;
use crate::types::State;

/// Per-browser settings, a flat field-for-field mirror of the foreign
/// settings struct.  The foreign side additionally version-checks the
/// struct by a size field that only the raw layer can stamp.
#[derive(Debug, Clone)]
pub struct BrowserSettings {
    pub windowless_frame_rate: usize,
    pub standard_font_family: CefString,
    pub fixed_font_family: CefString,
    pub serif_font_family: CefString,
    pub sans_serif_font_family: CefString,
    pub cursive_font_family: CefString,
    pub fantasy_font_family: CefString,
    pub default_font_size: u32,
    pub default_fixed_font_size: u32,
    pub minimum_font_size: u32,
    pub minimum_logical_font_size: u32,
    pub default_encoding: CefString,
    pub remote_fonts: State,
    pub javascript: State,
    pub javascript_close_windows: State,
    pub javascript_access_clipboard: State,
    pub javascript_dom_paste: State,
    pub image_loading: State,
    pub image_shrink_standalone_to_fit: State,
    pub text_area_resize: State,
    pub tab_to_links: State,
    pub local_storage: State,
    pub databases: State,
    pub webgl: State,
    pub background_color: u32,
    pub chrome_status_bubble: State,
    pub chrome_zoom_bubble: State,
}

impl Default for BrowserSettings {
    /// Every numeric field zero, every font and encoding name empty, every
    /// feature switch left at the foreign default.
    fn default() -> (r: Self)
        ensures
            r.windowless_frame_rate == 0,
            r.standard_font_family.units() == Seq::<u16>::empty(),
            r.fixed_font_family.units() == Seq::<u16>::empty(),
            r.serif_font_family.units() == Seq::<u16>::empty(),
            r.sans_serif_font_family.units() == Seq::<u16>::empty(),
            r.cursive_font_family.units() == Seq::<u16>::empty(),
            r.fantasy_font_family.units() == Seq::<u16>::empty(),
            r.default_font_size == 0,
            r.default_fixed_font_size == 0,
            r.minimum_font_size == 0,
            r.minimum_logical_font_size == 0,
            r.default_encoding.units() == Seq::<u16>::empty(),
            r.remote_fonts == State::Default,
            r.javascript == State::Default,
            r.javascript_close_windows == State::Default,
            r.javascript_access_clipboard == State::Default,
            r.javascript_dom_paste == State::Default,
            r.image_loading == State::Default,
            r.image_shrink_standalone_to_fit == State::Default,
            r.text_area_resize == State::Default,
            r.tab_to_links == State::Default,
            r.local_storage == State::Default,
            r.databases == State::Default,
            r.webgl == State::Default,
            r.background_color == 0,
            r.chrome_status_bubble == State::Default,
            r.chrome_zoom_bubble == State::Default,
    {
        BrowserSettings {
            windowless_frame_rate: 0,
            standard_font_family: CefString::default(),
            fixed_font_family: CefString::default(),
            serif_font_family: CefString::default(),
            sans_serif_font_family: CefString::default(),
            cursive_font_family: CefString::default(),
            fantasy_font_family: CefString::default(),
            default_font_size: 0,
            default_fixed_font_size: 0,
            minimum_font_size: 0,
            minimum_logical_font_size: 0,
            default_encoding: CefString::default(),
            remote_fonts: State::Default,
            javascript: State::Default,
            javascript_close_windows: State::Default,
            javascript_access_clipboard: State::Default,
            javascript_dom_paste: State::Default,
            image_loading: State::Default,
            image_shrink_standalone_to_fit: State::Default,
            text_area_resize: State::Default,
            tab_to_links: State::Default,
            local_storage: State::Default,
            databases: State::Default,
            webgl: State::Default,
            background_color: 0,
            chrome_status_bubble: State::Default,
            chrome_zoom_bubble: State::Default,
        }
    }
}

/// Non-owning view of a foreign browser object.
#[derive(Clone, Copy, Debug, PartialEq, Eq, Structural)]
pub struct Browser {
    raw_id: u64,
}

impl Browser {
    /// The identity the foreign side knows this browser by.
    pub closed spec fn id(&self) -> u64 {
        self.raw_id
    }

    /// Wrap the identity a trampoline received.
    pub fn from_raw_id(raw_id: u64) -> (b: Self)
        ensures
            b.id() == raw_id,
    {
        Browser { raw_id }
    }

    /// The wrapped identity.
    pub fn raw_id(&self) -> (r: u64)
        ensures
            r == self.id(),
    {
        self.raw_id
    }
}

/// Non-owning view of the host object behind a browser.
#[derive(Clone, Copy, Debug, PartialEq, Eq, Structural)]
pub struct BrowserHost {
    raw_id: u64,
}

impl BrowserHost {
    /// The identity the foreign side knows this host by.
    pub closed spec fn id(&self) -> u64 {
        self.raw_id
    }

    /// Wrap the identity the foreign side returned.
    pub fn from_raw_id(raw_id: u64) -> (h: Self)
        ensures
            h.id() == raw_id,
    {
        BrowserHost { raw_id }
    }

    /// The wrapped identity.
    pub fn raw_id(&self) -> (r: u64)
        ensures
            r == self.id(),
    {
        self.raw_id
    }
}

/// Non-owning view of a foreign browser view.
#[derive(Clone, Copy, Debug, PartialEq, Eq, Structural)]
pub struct BrowserView {
    raw_id: u64,
}

impl BrowserView {
    /// The identity the foreign side knows this view by.
    pub closed spec fn id(&self) -> u64 {
        self.raw_id
    }

    /// Wrap the identity the foreign side returned.
    pub fn from_raw_id(raw_id: u64) -> (v: Self)
        ensures
            v.id() == raw_id,
    {
        BrowserView { raw_id }
    }

    /// The wrapped identity.
    pub fn raw_id(&self) -> (r: u64)
        ensures
            r == self.id(),
    {
        self.raw_id
    }
}

} // verus!
