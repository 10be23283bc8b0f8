use cef::load_handler::{loading_state_scenario, LoadHandler, LoadStateEvent, LoadStateRecorder};
use cef::life_span_handler::LifeSpanHandler;
use cef::rc::{DispatchObject, ReleaseOutcome};
use cef::render_handler::RenderHandler;
use cef::render_utils::{CefPoint, CefRect};
use cef::string::CefString;
use cef::Browser;

/// A render handler that only cares about paint notifications; every other
/// slot is left at its default.
struct PaintOnly {
    paints: u32,
}

impl RenderHandler for PaintOnly {
    fn on_paint(
        &mut self,
        _browser: &Browser,
        _paint_type: cef::render_utils::PaintElementType,
        _dirty_rects: &Vec<CefRect>,
        _bytes: &Vec<u8>,
        _width: i32,
        _height: i32,
    ) {
        self.paints += 1;
    }
}

#[test]
fn unimplemented_view_rect_returns_zero_rect() {
    let mut obj = DispatchObject::new(PaintOnly { paints: 0 });
    let mut rect = CefRect {
        x: 9,
        y: 9,
        width: 9,
        height: 9,
    };
    cef::render_handler::get_view_rect(&mut obj, 1, &mut rect);
    assert_eq!(rect, CefRect { x: 0, y: 0, width: 0, height: 0 });
}

#[test]
fn unimplemented_root_screen_rect_reports_absent() {
    let mut obj = DispatchObject::new(PaintOnly { paints: 0 });
    let mut rect = CefRect {
        x: 3,
        y: 4,
        width: 5,
        height: 6,
    };
    let r = cef::render_handler::get_root_screen_rect(&mut obj, 1, &mut rect);
    assert_eq!(r, 0);
    // The output slot is only written when a rectangle is provided.
    assert_eq!(rect, CefRect { x: 3, y: 4, width: 5, height: 6 });
}

#[test]
fn unimplemented_screen_point_reports_absent() {
    let mut obj = DispatchObject::new(PaintOnly { paints: 0 });
    let mut sx = -1;
    let mut sy = -1;
    let r = cef::render_handler::get_screen_point(&mut obj, 1, 10, 20, &mut sx, &mut sy);
    assert_eq!(r, 0);
    assert_eq!((sx, sy), (-1, -1));
}

#[test]
fn unit_handler_defaults_through_shims() {
    // The fully unconfigured handler: every geometry query through its shim
    // yields the documented default.
    let mut obj = DispatchObject::new(());
    let mut rect = CefRect {
        x: 7,
        y: 7,
        width: 7,
        height: 7,
    };
    let r = cef::render_handler::get_root_screen_rect(&mut obj, 1, &mut rect);
    assert_eq!(r, 0);
    assert_eq!(rect, CefRect { x: 7, y: 7, width: 7, height: 7 });
    cef::render_handler::get_view_rect(&mut obj, 1, &mut rect);
    assert_eq!(rect, CefRect { x: 0, y: 0, width: 0, height: 0 });
    let mut sx = 5;
    let mut sy = 6;
    let r = cef::render_handler::get_screen_point(&mut obj, 1, 1, 2, &mut sx, &mut sy);
    assert_eq!(r, 0);
    assert_eq!((sx, sy), (5, 6));
}

#[test]
fn unconfigured_scenario_reports_defaults() {
    let mut rect = CefRect {
        x: 9,
        y: 9,
        width: 9,
        height: 9,
    };
    let mut sx = 3;
    let mut sy = 4;
    let (root_flag, point_flag) =
        cef::render_handler::unconfigured_render_handler_scenario(1, &mut rect, &mut sx, &mut sy);
    assert_eq!((root_flag, point_flag), (0, 0));
    assert_eq!(rect, CefRect { x: 0, y: 0, width: 0, height: 0 });
    assert_eq!((sx, sy), (3, 4));
}

#[test]
fn marshalling_helpers_are_exact() {
    let mut rect = CefRect {
        x: 1,
        y: 2,
        width: 3,
        height: 4,
    };
    let r = cef::render_handler::marshal_optional_rect(None, &mut rect);
    assert_eq!(r, 0);
    assert_eq!(rect, CefRect { x: 1, y: 2, width: 3, height: 4 });
    let given = CefRect {
        x: 10,
        y: 20,
        width: 30,
        height: 40,
    };
    let r = cef::render_handler::marshal_optional_rect(Some(given), &mut rect);
    assert_eq!(r, 1);
    assert_eq!(rect, given);

    let mut sx = -1;
    let mut sy = -2;
    let r = cef::render_handler::marshal_optional_point(None, &mut sx, &mut sy);
    assert_eq!(r, 0);
    assert_eq!((sx, sy), (-1, -2));
    let r = cef::render_handler::marshal_optional_point(
        Some(CefPoint { x: 8, y: 9 }),
        &mut sx,
        &mut sy,
    );
    assert_eq!(r, 1);
    assert_eq!((sx, sy), (8, 9));
}

#[test]
fn unimplemented_notifications_do_not_panic() {
    let mut obj = DispatchObject::new(PaintOnly { paints: 0 });
    cef::render_handler::on_popup_show(&mut obj, 1, 1);
    cef::render_handler::on_popup_size(&mut obj, 1, CefRect { x: 0, y: 0, width: 1, height: 1 });
    cef::render_handler::update_drag_cursor(&mut obj, 1, 0);
    cef::render_handler::on_virtual_keyboard_requested(&mut obj, 1, 0);
    let range = cef::render_utils::CefRange { from: 0, to: 1 };
    cef::render_handler::on_ime_composition_range_changed(&mut obj, 1, range, &vec![]);
    cef::render_handler::on_text_selection_changed(&mut obj, 1, None, range);
    // The overridden slot still works and saw none of the above.
    assert_eq!(obj.interface().paints, 0);
    cef::render_handler::on_paint(&mut obj, 1, 0, &vec![], &vec![], 4, 4);
    assert_eq!(obj.interface().paints, 1);
}

/// A render handler that models a fixed screen.
struct FixedScreen;

impl RenderHandler for FixedScreen {
    fn get_view_rect(&mut self, _browser: &Browser) -> CefRect {
        CefRect {
            x: 1,
            y: 2,
            width: 300,
            height: 200,
        }
    }

    fn get_screen_point(&mut self, _browser: &Browser, view: CefPoint) -> Option<CefPoint> {
        Some(CefPoint {
            x: view.x + 100,
            y: view.y + 50,
        })
    }
}

#[test]
fn implemented_slots_forward_their_answers() {
    let mut obj = DispatchObject::new(FixedScreen);
    let mut rect = CefRect::new();
    cef::render_handler::get_view_rect(&mut obj, 1, &mut rect);
    assert_eq!(rect, CefRect { x: 1, y: 2, width: 300, height: 200 });

    let mut sx = 0;
    let mut sy = 0;
    let r = cef::render_handler::get_screen_point(&mut obj, 1, 10, 20, &mut sx, &mut sy);
    assert_eq!(r, 1);
    assert_eq!((sx, sy), (110, 70));
}

#[test]
fn loading_state_sequence_in_order() {
    // Deliveries through the trampoline: loading starts, then ends.
    let mut obj = DispatchObject::new(LoadStateRecorder::new());
    cef::load_handler::on_loading_state_change(&mut obj, 7, 1, 0, 0);
    cef::load_handler::on_loading_state_change(&mut obj, 7, 0, 1, 0);
    match obj.release() {
        ReleaseOutcome::Destroyed(recorder) => {
            assert_eq!(
                recorder.events,
                vec![
                    LoadStateEvent { is_loading: true, can_go_back: false, can_go_forward: false },
                    LoadStateEvent { is_loading: false, can_go_back: true, can_go_forward: false },
                ]
            );
        }
        ReleaseOutcome::Retained(_) => panic!("sole reference did not destroy"),
    }
}

#[test]
fn loading_state_scenario_matches() {
    let browser = Browser::from_raw_id(1);
    let first = LoadStateEvent {
        is_loading: true,
        can_go_back: false,
        can_go_forward: false,
    };
    let second = LoadStateEvent {
        is_loading: false,
        can_go_back: true,
        can_go_forward: true,
    };
    let events = loading_state_scenario(&browser, first, second);
    assert_eq!(events, vec![first, second]);
}

/// A load handler that only watches errors.
struct ErrorWatcher {
    last_error_text: Option<String>,
}

impl LoadHandler for ErrorWatcher {
    fn on_load_error(
        &mut self,
        _browser: &Browser,
        _frame: &mut cef::frame::Frame,
        _error_code: cef::ErrorCode,
        error_text: CefString,
        _failed_url: CefString,
    ) {
        let text: String = error_text.to_chars().unwrap().into_iter().collect();
        self.last_error_text = Some(text);
    }
}

#[test]
fn load_error_substitutes_sentinel_text() {
    let mut obj = DispatchObject::new(ErrorWatcher { last_error_text: None });
    cef::load_handler::on_load_error(&mut obj, 1, 2, -105, None, None);
    assert_eq!(
        obj.interface().last_error_text.as_deref(),
        Some("unknown error")
    );
    let given = CefString::new("connection reset");
    cef::load_handler::on_load_error(&mut obj, 1, 2, -101, Some(given), None);
    assert_eq!(
        obj.interface().last_error_text.as_deref(),
        Some("connection reset")
    );
}

/// A life-span handler that claims every close.
struct ClaimClose;

impl LifeSpanHandler for ClaimClose {
    fn do_close(&mut self, _browser: Browser) -> bool {
        true
    }
}

#[test]
fn do_close_encodes_the_answer() {
    let mut claims = DispatchObject::new(ClaimClose);
    assert_eq!(cef::life_span_handler::do_close(&mut claims, 1), 1);
    // The default declines the close.
    let mut declines = DispatchObject::new(());
    assert_eq!(cef::life_span_handler::do_close(&mut declines, 1), 0);
}

/// A client that offers only the load capability.
struct LoadOnlyClient;

impl cef::Client for LoadOnlyClient {
    type RenderHandler = ();
    type LoadHandler = ();
    type LifeSpanHandler = ();

    fn get_load_handler(&self) -> Option<&()> {
        Some(&())
    }
}

#[test]
fn declined_capabilities_stay_absent() {
    let obj = DispatchObject::new(LoadOnlyClient);
    assert!(cef::client::get_render_handler(&obj).is_none());
    assert!(cef::client::get_life_span_handler(&obj).is_none());
    let load = cef::client::get_load_handler(&obj);
    match load {
        Some(h) => assert!(h.has_one_ref()),
        None => panic!("provided capability was dropped"),
    }
}

#[test]
fn unhandled_process_message_reports_zero() {
    let mut obj = DispatchObject::new(LoadOnlyClient);
    let r = cef::client::on_process_message_received(&mut obj, 1, 2, 0, 3);
    assert_eq!(r, 0);
}

#[test]
fn trampolines_leave_the_count_alone() {
    let mut obj = DispatchObject::new(LoadStateRecorder::new());
    obj.add_ref();
    cef::load_handler::on_loading_state_change(&mut obj, 1, 1, 1, 1);
    cef::load_handler::on_load_end(&mut obj, 1, 2, 200);
    assert!(!obj.has_one_ref());
    match obj.release() {
        ReleaseOutcome::Retained(o) => assert!(o.has_one_ref()),
        ReleaseOutcome::Destroyed(_) => panic!("count was disturbed"),
    }
}
