//! Plain value types shared across the binding: tri-state switches,
//! logging configuration, process and thread identifiers, and the raw
//! carriers for foreign enum values.
//!
//! Each type that crosses the foreign boundary as an integer has a verified
//! `code` mapping that pins the wire value of every variant.

use vstd::prelude::*;

verus! {

/// A tri-state switch used throughout the browser settings: leave the
/// foreign default, force the feature on, or force it off.
#[derive(Clone, Copy, Debug, PartialEq, Eq, Structural)]
pub enum State {
    Default,
    Enabled,
    Disabled,
}

impl State {
    /// The integer the foreign side uses for this state.
    pub open spec fn code_spec(self) -> u32 {
        match self {
            State::Default => 0,
            State::Enabled => 1,
            State::Disabled => 2,
        }
    }

    /// Wire value of the state.
    pub fn code(&self) -> (r: u32)
        ensures
            r == self.code_spec(),
    {
        match self {
            State::Default => 0,
            State::Enabled => 1,
            State::Disabled => 2,
        }
    }
}

impl State {
    /// Decode the wire value; anything unrecognized keeps the foreign
    /// default.
    pub fn from_code(v: u32) -> (r: State)
        ensures
            r == (if v == 1 {
                State::Enabled
            } else if v == 2 {
                State::Disabled
            } else {
                State::Default
            }),
    {
        if v == 1 {
            State::Enabled
        } else if v == 2 {
            State::Disabled
        } else {
            State::Default
        }
    }
}

impl Default for State {
    fn default() -> (r: Self)
        ensures
            r == State::Default,
    {
        State::Default
    }
}

/// Log verbosity accepted by the foreign library.
#[derive(Clone, Copy, Debug, PartialEq, Eq, Structural)]
pub enum LogSeverity {
    Default,
    Verbose,
    Info,
    Warning,
    Error,
    Fatal,
    Disable,
}

impl LogSeverity {
    /// The integer the foreign side uses for this severity; disabling
    /// logging has its own out-of-band value.
    pub open spec fn code_spec(self) -> u32 {
        match self {
            LogSeverity::Default => 0,
            LogSeverity::Verbose => 1,
            LogSeverity::Info => 2,
            LogSeverity::Warning => 3,
            LogSeverity::Error => 4,
            LogSeverity::Fatal => 5,
            LogSeverity::Disable => 99,
        }
    }

    /// Wire value of the severity.
    pub fn code(&self) -> (r: u32)
        ensures
            r == self.code_spec(),
    {
        match self {
            LogSeverity::Default => 0,
            LogSeverity::Verbose => 1,
            LogSeverity::Info => 2,
            LogSeverity::Warning => 3,
            LogSeverity::Error => 4,
            LogSeverity::Fatal => 5,
            LogSeverity::Disable => 99,
        }
    }
}

impl LogSeverity {
    /// Decode the wire value; anything unrecognized keeps the foreign
    /// default.
    pub fn from_code(v: u32) -> (r: LogSeverity)
        ensures
            r == (if v == 1 {
                LogSeverity::Verbose
            } else if v == 2 {
                LogSeverity::Info
            } else if v == 3 {
                LogSeverity::Warning
            } else if v == 4 {
                LogSeverity::Error
            } else if v == 5 {
                LogSeverity::Fatal
            } else if v == 99 {
                LogSeverity::Disable
            } else {
                LogSeverity::Default
            }),
    {
        if v == 1 {
            LogSeverity::Verbose
        } else if v == 2 {
            LogSeverity::Info
        } else if v == 3 {
            LogSeverity::Warning
        } else if v == 4 {
            LogSeverity::Error
        } else if v == 5 {
            LogSeverity::Fatal
        } else if v == 99 {
            LogSeverity::Disable
        } else {
            LogSeverity::Default
        }
    }
}

impl Default for LogSeverity {
    fn default() -> (r: Self)
        ensures
            r == LogSeverity::Default,
    {
        LogSeverity::Default
    }
}

/// Bit flags choosing which items each log line carries; zero keeps the
/// foreign default set.
#[derive(Clone, Copy, Debug, PartialEq, Eq, Structural)]
pub struct LogItems(pub u32);

impl Default for LogItems {
    fn default() -> (r: Self)
        ensures
            r == (LogItems(0)),
    {
        LogItems(0)
    }
}

/// The process a message originates from.
#[derive(Clone, Copy, Debug, PartialEq, Eq, Structural)]
pub enum ProcessId {
    Browser,
    Renderer,
}

impl ProcessId {
    /// The integer the foreign side uses for this process.
    pub open spec fn code_spec(self) -> u32 {
        match self {
            ProcessId::Browser => 0,
            ProcessId::Renderer => 1,
        }
    }

    /// Wire value of the process identifier.
    pub fn code(&self) -> (r: u32)
        ensures
            r == self.code_spec(),
    {
        match self {
            ProcessId::Browser => 0,
            ProcessId::Renderer => 1,
        }
    }

    /// Decode the wire value; anything but the renderer's value names the
    /// browser process.
    pub fn from_code(v: u32) -> (r: ProcessId)
        ensures
            r == (if v == 1 {
                ProcessId::Renderer
            } else {
                ProcessId::Browser
            }),
    {
        if v == 1 {
            ProcessId::Renderer
        } else {
            ProcessId::Browser
        }
    }
}

/// A named foreign thread that work can be posted to.
#[derive(Clone, Copy, Debug, PartialEq, Eq, Structural)]
pub enum ThreadId {
    Ui,
    FileBackground,
    FileUserVisible,
    FileUserBlocking,
    ProcessLauncher,
    Io,
    Renderer,
}

impl ThreadId {
    /// The integer the foreign side uses for this thread.
    pub open spec fn code_spec(self) -> u32 {
        match self {
            ThreadId::Ui => 0,
            ThreadId::FileBackground => 1,
            ThreadId::FileUserVisible => 2,
            ThreadId::FileUserBlocking => 3,
            ThreadId::ProcessLauncher => 4,
            ThreadId::Io => 5,
            ThreadId::Renderer => 6,
        }
    }

    /// Wire value of the thread identifier.
    pub fn code(&self) -> (r: u32)
        ensures
            r == self.code_spec(),
    {
        match self {
            ThreadId::Ui => 0,
            ThreadId::FileBackground => 1,
            ThreadId::FileUserVisible => 2,
            ThreadId::FileUserBlocking => 3,
            ThreadId::ProcessLauncher => 4,
            ThreadId::Io => 5,
            ThreadId::Renderer => 6,
        }
    }
}

/// The foreign bitmask describing how a navigation was initiated, carried
/// through untouched.
#[derive(Clone, Copy, Debug, PartialEq, Eq, Structural)]
pub struct TransitionType(pub u32);

/// The foreign load error number, carried through untouched.
#[derive(Clone, Copy, Debug, PartialEq, Eq, Structural)]
pub struct ErrorCode(pub i32);

/// The foreign bitmask of permitted drag operations, carried through
/// untouched.
#[derive(Clone, Copy, Debug, PartialEq, Eq, Structural)]
pub struct DragOperationsMask(pub u32);

/// The foreign keyboard input mode, carried through untouched.
#[derive(Clone, Copy, Debug, PartialEq, Eq, Structural)]
pub struct TextInputMode(pub u32);

/// How the foreign side encodes a boolean argument: any positive integer is
/// true.
pub fn int_to_bool(v: i32) -> (r: bool)
    ensures
        r == (v > 0),
{
    v > 0
}

/// How a boolean answer goes back to the foreign side: one for true, zero
/// for false.
pub fn bool_to_int(b: bool) -> (r: i32)
    ensures
        r == (if b {
            1i32
        } else {
            0i32
        }),
{
    if b {
        1
    } else {
        0
    }
}

} // verus!
