use std::cell::Cell;
use std::rc::Rc;

use cef::rc::DispatchObject;
use cef::render_utils::{CefPoint, CefRange, CefRect};
use cef::task_runner::TaskRunner;
use cef::thread::TaskWrapper;
use cef::{BrowserSettings, LogItems, LogSeverity, Settings, State, WindowInfo};

#[test]
fn settings_default_is_all_off() {
    let s = Settings::default();
    assert!(!s.no_sandbox);
    assert!(!s.chrome_runtime);
    assert!(!s.multi_threaded_message_loop);
    assert!(!s.external_message_pump);
    assert!(!s.windowless_rendering_enabled);
    assert!(!s.command_line_args_disabled);
    assert!(!s.persist_session_cookies);
    assert!(!s.persist_user_preferences);
    assert!(!s.pack_loading_disabled);
    assert!(!s.cookieable_schemes_exclude_defaults);
    assert_eq!(s.browser_subprocess_path.len(), 0);
    assert_eq!(s.framework_dir_path.len(), 0);
    assert_eq!(s.main_bundle_path.len(), 0);
    assert_eq!(s.cache_path.len(), 0);
    assert_eq!(s.root_cache_path.len(), 0);
    assert_eq!(s.user_agent.len(), 0);
    assert_eq!(s.user_agent_product.len(), 0);
    assert_eq!(s.locale.len(), 0);
    assert_eq!(s.log_file.len(), 0);
    assert_eq!(s.javascript_flags.len(), 0);
    assert_eq!(s.resources_dir_path.len(), 0);
    assert_eq!(s.locales_dir_path.len(), 0);
    assert_eq!(s.accept_language_list.len(), 0);
    assert_eq!(s.cookieable_schemes_list.len(), 0);
    assert_eq!(s.chrome_policy_id.len(), 0);
    assert_eq!(s.log_severity, LogSeverity::Default);
    assert_eq!(s.log_items, LogItems(0));
    assert_eq!(s.remote_debugging_port, 0);
    assert_eq!(s.uncaught_exception_stack_size, 0);
    assert_eq!(s.background_color, 0);
    assert_eq!(s.chrome_app_icon_id, 0);
}

#[test]
fn browser_settings_default_leaves_features_alone() {
    let s = BrowserSettings::default();
    assert_eq!(s.windowless_frame_rate, 0);
    assert_eq!(s.standard_font_family.len(), 0);
    assert_eq!(s.fixed_font_family.len(), 0);
    assert_eq!(s.serif_font_family.len(), 0);
    assert_eq!(s.sans_serif_font_family.len(), 0);
    assert_eq!(s.cursive_font_family.len(), 0);
    assert_eq!(s.fantasy_font_family.len(), 0);
    assert_eq!(s.default_font_size, 0);
    assert_eq!(s.default_fixed_font_size, 0);
    assert_eq!(s.minimum_font_size, 0);
    assert_eq!(s.minimum_logical_font_size, 0);
    assert_eq!(s.default_encoding.len(), 0);
    for state in [
        s.remote_fonts,
        s.javascript,
        s.javascript_close_windows,
        s.javascript_access_clipboard,
        s.javascript_dom_paste,
        s.image_loading,
        s.image_shrink_standalone_to_fit,
        s.text_area_resize,
        s.tab_to_links,
        s.local_storage,
        s.databases,
        s.webgl,
        s.chrome_status_bubble,
        s.chrome_zoom_bubble,
    ] {
        assert_eq!(state, State::Default);
    }
    assert_eq!(s.background_color, 0);
}

#[test]
fn window_info_default_placement() {
    let w = WindowInfo::default();
    let name: String = w.window_name.to_chars().unwrap().into_iter().collect();
    assert_eq!(name, "UwU");
    assert_eq!(w.bounds, CefRect { x: 0, y: 0, width: 1280, height: 720 });
    assert_eq!(w.parent_window, 0);
    assert!(!w.windowless_rendering_enabled);
    assert!(!w.shared_texture_enabled);
    assert!(!w.external_begin_frame_enabled);
    assert_eq!(w.window, 0);
}

#[test]
fn geometry_constructors_are_zero() {
    assert_eq!(CefRect::new(), CefRect { x: 0, y: 0, width: 0, height: 0 });
    assert_eq!(CefPoint::new(), CefPoint { x: 0, y: 0 });
    assert_eq!(CefRange::new(), CefRange { from: 0, to: 0 });
}

#[test]
fn task_runs_exactly_once() {
    let hits = Rc::new(Cell::new(0u32));
    let h = hits.clone();
    let mut task = TaskWrapper::new(move || h.set(h.get() + 1));
    assert_eq!(hits.get(), 0);
    task.execute();
    assert_eq!(hits.get(), 1);
    task.execute();
    assert_eq!(hits.get(), 1);
}

#[test]
fn task_runs_through_the_dispatch_bridge() {
    let hits = Rc::new(Cell::new(0u32));
    let h = hits.clone();
    let mut obj = DispatchObject::new(TaskWrapper::new(move || h.set(h.get() + 1)));
    cef::thread::execute(&mut obj);
    assert_eq!(hits.get(), 1);
    cef::thread::execute(&mut obj);
    assert_eq!(hits.get(), 1);
    assert!(obj.has_one_ref());
}

#[test]
fn task_runner_identity() {
    let a = TaskRunner::from_raw_id(10);
    let b = TaskRunner::from_raw_id(10);
    let c = TaskRunner::from_raw_id(11);
    assert!(a.is_same(&b));
    assert!(!a.is_same(&c));
    assert_eq!(a.raw_id(), 10);
}
