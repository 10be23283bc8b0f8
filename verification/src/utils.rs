//! Process result codes.
//!
//! When initialization fails, the foreign library reports why through an
//! integer exit code.  [`ResultCode`] names every exit code the library
//! documents, and [`integer_to_error_code`] is the verified mapping back
//! from the raw integer: it succeeds exactly on the documented values.

use vstd::prelude::*;

verus! {

/// A documented process exit code of the foreign library: the generic
/// process codes, the browser-specific block, and the sandbox block.
#[derive(Clone, Copy, Debug, PartialEq, Eq, Structural)]
pub enum ResultCode {
    NormalExit,
    Killed,
    Hung,
    KilledBadMessage,
    GpuDeadOnArrival,
    ChromeFirst,
    MissingData,
    UnsupportedParam,
    ProfileInUse,
    PackExtensionError,
    NormalExitProcessNotified,
    InvalidSandboxState,
    CloudPolicyEnrollmentFailed,
    GpuExitOnContextLost,
    NormalExitPackExtensionSuccess,
    SystemResourceExhausted,
    ChromeLast,
    SandboxFatalFirst,
    SandboxFatalDroptoken,
    SandboxFatalFlushandles,
    SandboxFatalCachedisable,
    SandboxFatalClosehandles,
    SandboxFatalMitigation,
    SandboxFatalMemoryExceeded,
    SandboxFatalWarmup,
    SandboxFatalLast,
}

impl ResultCode {
    /// The integer the foreign library reports for this code.
    pub open spec fn value_spec(self) -> i32 {
        match self {
            ResultCode::NormalExit => 0,
            ResultCode::Killed => 1,
            ResultCode::Hung => 2,
            ResultCode::KilledBadMessage => 3,
            ResultCode::GpuDeadOnArrival => 4,
            ResultCode::ChromeFirst => 5,
            ResultCode::MissingData => 7,
            ResultCode::UnsupportedParam => 10,
            ResultCode::ProfileInUse => 21,
            ResultCode::PackExtensionError => 22,
            ResultCode::NormalExitProcessNotified => 24,
            ResultCode::InvalidSandboxState => 31,
            ResultCode::CloudPolicyEnrollmentFailed => 32,
            ResultCode::GpuExitOnContextLost => 34,
            ResultCode::NormalExitPackExtensionSuccess => 36,
            ResultCode::SystemResourceExhausted => 37,
            ResultCode::ChromeLast => 38,
            ResultCode::SandboxFatalFirst => 7006,
            ResultCode::SandboxFatalDroptoken => 7007,
            ResultCode::SandboxFatalFlushandles => 7008,
            ResultCode::SandboxFatalCachedisable => 7009,
            ResultCode::SandboxFatalClosehandles => 7010,
            ResultCode::SandboxFatalMitigation => 7011,
            ResultCode::SandboxFatalMemoryExceeded => 7012,
            ResultCode::SandboxFatalWarmup => 7013,
            ResultCode::SandboxFatalLast => 7014,
        }
    }

    /// The raw exit code for this result code.
    pub fn value(&self) -> (r: i32)
        ensures
            r == self.value_spec(),
    {
        match self {
            ResultCode::NormalExit => 0,
            ResultCode::Killed => 1,
            ResultCode::Hung => 2,
            ResultCode::KilledBadMessage => 3,
            ResultCode::GpuDeadOnArrival => 4,
            ResultCode::ChromeFirst => 5,
            ResultCode::MissingData => 7,
            ResultCode::UnsupportedParam => 10,
            ResultCode::ProfileInUse => 21,
            ResultCode::PackExtensionError => 22,
            ResultCode::NormalExitProcessNotified => 24,
            ResultCode::InvalidSandboxState => 31,
            ResultCode::CloudPolicyEnrollmentFailed => 32,
            ResultCode::GpuExitOnContextLost => 34,
            ResultCode::NormalExitPackExtensionSuccess => 36,
            ResultCode::SystemResourceExhausted => 37,
            ResultCode::ChromeLast => 38,
            ResultCode::SandboxFatalFirst => 7006,
            ResultCode::SandboxFatalDroptoken => 7007,
            ResultCode::SandboxFatalFlushandles => 7008,
            ResultCode::SandboxFatalCachedisable => 7009,
            ResultCode::SandboxFatalClosehandles => 7010,
            ResultCode::SandboxFatalMitigation => 7011,
            ResultCode::SandboxFatalMemoryExceeded => 7012,
            ResultCode::SandboxFatalWarmup => 7013,
            ResultCode::SandboxFatalLast => 7014,
        }
    }
}

/// True exactly for the integers that name a documented result code.
pub open spec fn known_result_code(integer: i32) -> bool {
    ||| integer == 0
    ||| integer == 1
    ||| integer == 2
    ||| integer == 3
    ||| integer == 4
    ||| integer == 5
    ||| integer == 7
    ||| integer == 10
    ||| integer == 21
    ||| integer == 22
    ||| integer == 24
    ||| integer == 31
    ||| integer == 32
    ||| integer == 34
    ||| integer == 36
    ||| integer == 37
    ||| integer == 38
    ||| 7006 <= integer <= 7014
}

/// Map a raw exit code back to its named result code.  Succeeds if and only
/// if the integer is one of the documented codes, and then returns the code
/// whose value is exactly that integer.
pub fn integer_to_error_code(integer: i32) -> (r: Result<ResultCode, ()>)
    ensures
        r is Ok <==> known_result_code(integer),
        match r {
            Ok(rc) => rc.value_spec() == integer,
            Err(()) => true,
        },
{
    match integer {
        0 => Ok(ResultCode::NormalExit),
        1 => Ok(ResultCode::Killed),
        2 => Ok(ResultCode::Hung),
        3 => Ok(ResultCode::KilledBadMessage),
        4 => Ok(ResultCode::GpuDeadOnArrival),
        5 => Ok(ResultCode::ChromeFirst),
        7 => Ok(ResultCode::MissingData),
        10 => Ok(ResultCode::UnsupportedParam),
        21 => Ok(ResultCode::ProfileInUse),
        22 => Ok(ResultCode::PackExtensionError),
        24 => Ok(ResultCode::NormalExitProcessNotified),
        31 => Ok(ResultCode::InvalidSandboxState),
        32 => Ok(ResultCode::CloudPolicyEnrollmentFailed),
        34 => Ok(ResultCode::GpuExitOnContextLost),
        36 => Ok(ResultCode::NormalExitPackExtensionSuccess),
        37 => Ok(ResultCode::SystemResourceExhausted),
        38 => Ok(ResultCode::ChromeLast),
        7006 => Ok(ResultCode::SandboxFatalFirst),
        7007 => Ok(ResultCode::SandboxFatalDroptoken),
        7008 => Ok(ResultCode::SandboxFatalFlushandles),
        7009 => Ok(ResultCode::SandboxFatalCachedisable),
        7010 => Ok(ResultCode::SandboxFatalClosehandles),
        7011 => Ok(ResultCode::SandboxFatalMitigation),
        7012 => Ok(ResultCode::SandboxFatalMemoryExceeded),
        7013 => Ok(ResultCode::SandboxFatalWarmup),
        7014 => Ok(ResultCode::SandboxFatalLast),
        _ => Err(()),
    }
}

} // verus!
