//! Global library settings, a flat field-for-field mirror of the foreign
//! settings struct.  The foreign side additionally version-checks the
//! struct by a size field that only the raw layer can stamp.

use vstd::prelude::*;

verus! {

use crate::string::CefString;
use crate::types::LogItems;
use crate::types::LogSeverity;

/// Process-wide settings handed to the foreign library at initialization.
#[derive(Debug, Clone)]
pub struct Settings {
    pub no_sandbox: bool,
    pub browser_subprocess_path: CefString,
    pub framework_dir_path: CefString,
    pub main_bundle_path: CefString,
    pub chrome_runtime: bool,
    pub multi_threaded_message_loop: bool,
    pub external_message_pump: bool,
    pub windowless_rendering_enabled: bool,
    pub command_line_args_disabled: bool,
    pub cache_path: CefString,
    pub root_cache_path: CefString,
    pub persist_session_cookies: bool,
    pub persist_user_preferences: bool,
    pub user_agent: CefString,
    pub user_agent_product: CefString,
    pub locale: CefString,
    pub log_file: CefString,
    pub log_severity: LogSeverity,
    pub log_items: LogItems,
    pub javascript_flags: CefString,
    pub resources_dir_path: CefString,
    pub locales_dir_path: CefString,
    pub pack_loading_disabled: bool,
    pub remote_debugging_port: u32,
    pub uncaught_exception_stack_size: u32,
    pub background_color: u32,
    pub accept_language_list: CefString,
    pub cookieable_schemes_list: CefString,
    pub cookieable_schemes_exclude_defaults: bool,
    pub chrome_policy_id: CefString,
    pub chrome_app_icon_id: i32,
}

impl Default for Settings {
    /// Every switch off, every path and name empty, logging and colors at
    /// the foreign defaults.
    fn default() -> (r: Self)
        ensures
            r.no_sandbox == false,
            r.browser_subprocess_path.units() == Seq::<u16>::empty(),
            r.framework_dir_path.units() == Seq::<u16>::empty(),
            r.main_bundle_path.units() == Seq::<u16>::empty(),
            r.chrome_runtime == false,
            r.multi_threaded_message_loop == false,
            r.external_message_pump == false,
            r.windowless_rendering_enabled == false,
            r.command_line_args_disabled == false,
            r.cache_path.units() == Seq::<u16>::empty(),
            r.root_cache_path.units() == Seq::<u16>::empty(),
            r.persist_session_cookies == false,
            r.persist_user_preferences == false,
            r.user_agent.units() == Seq::<u16>::empty(),
            r.user_agent_product.units() == Seq::<u16>::empty(),
            r.locale.units() == Seq::<u16>::empty(),
            r.log_file.units() == Seq::<u16>::empty(),
            r.log_severity == LogSeverity::Default,
            r.log_items == (LogItems(0)),
            r.javascript_flags.units() == Seq::<u16>::empty(),
            r.resources_dir_path.units() == Seq::<u16>::empty(),
            r.locales_dir_path.units() == Seq::<u16>::empty(),
            r.pack_loading_disabled == false,
            r.remote_debugging_port == 0,
            r.uncaught_exception_stack_size == 0,
            r.background_color == 0,
            r.accept_language_list.units() == Seq::<u16>::empty(),
            r.cookieable_schemes_list.units() == Seq::<u16>::empty(),
            r.cookieable_schemes_exclude_defaults == false,
            r.chrome_policy_id.units() == Seq::<u16>::empty(),
            r.chrome_app_icon_id == 0,
    {
        Settings {
            no_sandbox: false,
            browser_subprocess_path: CefString::default(),
            framework_dir_path: CefString::default(),
            main_bundle_path: CefString::default(),
            chrome_runtime: false,
            multi_threaded_message_loop: false,
            external_message_pump: false,
            windowless_rendering_enabled: false,
            command_line_args_disabled: false,
            cache_path: CefString::default(),
            root_cache_path: CefString::default(),
            persist_session_cookies: false,
            persist_user_preferences: false,
            user_agent: CefString::default(),
            user_agent_product: CefString::default(),
            locale: CefString::default(),
            log_file: CefString::default(),
            log_severity: LogSeverity::Default,
            log_items: LogItems(0),
            javascript_flags: CefString::default(),
            resources_dir_path: CefString::default(),
            locales_dir_path: CefString::default(),
            pack_loading_disabled: false,
            remote_debugging_port: 0,
            uncaught_exception_stack_size: 0,
            background_color: 0,
            accept_language_list: CefString::default(),
            cookieable_schemes_list: CefString::default(),
            cookieable_schemes_exclude_defaults: false,
            chrome_policy_id: CefString::default(),
            chrome_app_icon_id: 0,
        }
    }
}

} // verus!
