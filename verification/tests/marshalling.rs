use cef::render_utils::PaintElementType;
use cef::utils::{integer_to_error_code, ResultCode};
use cef::{LogItems, LogSeverity, ProcessId, State, ThreadId};

#[test]
fn result_codes_round_trip_through_their_values() {
    let codes = [
        (ResultCode::NormalExit, 0),
        (ResultCode::Killed, 1),
        (ResultCode::Hung, 2),
        (ResultCode::KilledBadMessage, 3),
        (ResultCode::GpuDeadOnArrival, 4),
        (ResultCode::ChromeFirst, 5),
        (ResultCode::MissingData, 7),
        (ResultCode::UnsupportedParam, 10),
        (ResultCode::ProfileInUse, 21),
        (ResultCode::PackExtensionError, 22),
        (ResultCode::NormalExitProcessNotified, 24),
        (ResultCode::InvalidSandboxState, 31),
        (ResultCode::CloudPolicyEnrollmentFailed, 32),
        (ResultCode::GpuExitOnContextLost, 34),
        (ResultCode::NormalExitPackExtensionSuccess, 36),
        (ResultCode::SystemResourceExhausted, 37),
        (ResultCode::ChromeLast, 38),
        (ResultCode::SandboxFatalFirst, 7006),
        (ResultCode::SandboxFatalDroptoken, 7007),
        (ResultCode::SandboxFatalFlushandles, 7008),
        (ResultCode::SandboxFatalCachedisable, 7009),
        (ResultCode::SandboxFatalClosehandles, 7010),
        (ResultCode::SandboxFatalMitigation, 7011),
        (ResultCode::SandboxFatalMemoryExceeded, 7012),
        (ResultCode::SandboxFatalWarmup, 7013),
        (ResultCode::SandboxFatalLast, 7014),
    ];
    for (rc, value) in codes {
        assert_eq!(rc.value(), value);
        assert_eq!(integer_to_error_code(value), Ok(rc));
    }
}

#[test]
fn unknown_integers_are_rejected() {
    for i in [-1, 6, 8, 9, 11, 20, 23, 39, 100, 7005, 7015, i32::MAX, i32::MIN] {
        assert_eq!(integer_to_error_code(i), Err(()));
    }
}

#[test]
fn state_codes() {
    assert_eq!(State::Default.code(), 0);
    assert_eq!(State::Enabled.code(), 1);
    assert_eq!(State::Disabled.code(), 2);
    assert_eq!(State::default(), State::Default);
    for state in [State::Default, State::Enabled, State::Disabled] {
        assert_eq!(State::from_code(state.code()), state);
    }
    assert_eq!(State::from_code(77), State::Default);
}

#[test]
fn log_severity_from_code_round_trips() {
    for sev in [
        LogSeverity::Default,
        LogSeverity::Verbose,
        LogSeverity::Info,
        LogSeverity::Warning,
        LogSeverity::Error,
        LogSeverity::Fatal,
        LogSeverity::Disable,
    ] {
        assert_eq!(LogSeverity::from_code(sev.code()), sev);
    }
    assert_eq!(LogSeverity::from_code(42), LogSeverity::Default);
}

#[test]
fn log_severity_codes() {
    assert_eq!(LogSeverity::Default.code(), 0);
    assert_eq!(LogSeverity::Verbose.code(), 1);
    assert_eq!(LogSeverity::Info.code(), 2);
    assert_eq!(LogSeverity::Warning.code(), 3);
    assert_eq!(LogSeverity::Error.code(), 4);
    assert_eq!(LogSeverity::Fatal.code(), 5);
    assert_eq!(LogSeverity::Disable.code(), 99);
    assert_eq!(LogSeverity::default(), LogSeverity::Default);
    assert_eq!(LogItems::default(), LogItems(0));
}

#[test]
fn process_and_thread_codes() {
    assert_eq!(ProcessId::Browser.code(), 0);
    assert_eq!(ProcessId::Renderer.code(), 1);
    assert_eq!(ProcessId::from_code(0), ProcessId::Browser);
    assert_eq!(ProcessId::from_code(1), ProcessId::Renderer);
    assert_eq!(ProcessId::from_code(99), ProcessId::Browser);

    assert_eq!(ThreadId::Ui.code(), 0);
    assert_eq!(ThreadId::FileBackground.code(), 1);
    assert_eq!(ThreadId::FileUserVisible.code(), 2);
    assert_eq!(ThreadId::FileUserBlocking.code(), 3);
    assert_eq!(ThreadId::ProcessLauncher.code(), 4);
    assert_eq!(ThreadId::Io.code(), 5);
    assert_eq!(ThreadId::Renderer.code(), 6);
}

#[test]
fn paint_element_codes() {
    assert_eq!(PaintElementType::View.code(), 0);
    assert_eq!(PaintElementType::Popup.code(), 1);
    assert_eq!(PaintElementType::from_code(0), PaintElementType::View);
    assert_eq!(PaintElementType::from_code(1), PaintElementType::Popup);
    assert_eq!(PaintElementType::from_code(17), PaintElementType::View);
}

#[test]
fn bool_encodings() {
    assert!(cef::types::int_to_bool(1));
    assert!(cef::types::int_to_bool(17));
    assert!(!cef::types::int_to_bool(0));
    assert!(!cef::types::int_to_bool(-3));
    assert_eq!(cef::types::bool_to_int(true), 1);
    assert_eq!(cef::types::bool_to_int(false), 0);
}
