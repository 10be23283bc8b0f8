//! Safe, verified core of a binding layer over a C browser-embedding library.
//!
//! The foreign library drives everything through structs of function
//! pointers that carry an intrusive reference count.  This crate models the
//! pieces of that bridge whose behaviour can be stated and proved on plain
//! values: the reference-counted dispatch object, the UTF-16 string
//! marshalling, the capability traits with their forwarding logic, and the
//! flat settings structures.  The raw FFI shell around it lives outside the
//! verified library.

pub mod app;
pub mod browser;
pub mod browser_process_handler;
pub mod client;
pub mod command_line;
pub mod dom;
pub mod frame;
pub mod life_span_handler;
pub mod load_handler;
pub mod process;
pub mod rc;
pub mod render_handler;
pub mod render_process_handler;
pub mod render_utils;
pub mod settings;
pub mod string;
pub mod task_runner;
pub mod thread;
pub mod types;
pub mod utils;
pub mod v8_context;
pub mod v8_exception;
pub mod v8_stack_trace;
pub mod values;
pub mod window;

pub use app::App;
pub use browser::Browser;
pub use browser::BrowserSettings;
pub use client::Client;
pub use command_line::CommandLine;
pub use settings::Settings;
pub use window::WindowInfo;

pub use types::ErrorCode;
pub use types::LogItems;
pub use types::LogSeverity;
pub use types::ProcessId;
pub use types::State;
pub use types::ThreadId;
pub use types::TransitionType;
pub use utils::ResultCode;
