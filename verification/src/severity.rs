//! The severity domain shared by the facade side and the native side of the
//! bridge, and the translation between the two.
//!
//! The facade orders five levels from most severe (`Error`) to least severe
//! (`Trace`). The native OBS logging primitive knows only four numeric codes;
//! it has no trace level, so `Trace` is deliberately folded into the debug
//! code.

use vstd::prelude::*;

verus! {

/// Severity of a log record, from most severe (`Error`) to least (`Trace`).
#[derive(Clone, Copy, PartialEq, Eq, Structural, Debug)]
pub enum Severity {
    Error,
    Warning,
    Info,
    Debug,
    Trace,
}

/// Numeric rank of a severity: higher means more severe.
pub open spec fn severity_rank(s: Severity) -> int {
    match s {
        Severity::Error => 4,
        Severity::Warning => 3,
        Severity::Info => 2,
        Severity::Debug => 1,
        Severity::Trace => 0,
    }
}

/// `a` is at least as severe as `b`, under the ordering
/// `Error > Warning > Info > Debug > Trace`.
pub open spec fn at_least_as_severe(a: Severity, b: Severity) -> bool {
    severity_rank(a) >= severity_rank(b)
}

impl Severity {
    /// Executable rank, agreeing with `severity_rank`.
    pub fn rank(&self) -> (r: u8)
        ensures
            r == severity_rank(*self),
    {
        match self {
            Severity::Error => 4,
            Severity::Warning => 3,
            Severity::Info => 2,
            Severity::Debug => 1,
            Severity::Trace => 0,
        }
    }
}

/// Native code for error messages.
pub const NATIVE_LOG_ERROR: i32 = 100;

/// Native code for warnings.
pub const NATIVE_LOG_WARNING: i32 = 200;

/// Native code for informational messages.
pub const NATIVE_LOG_INFO: i32 = 300;

/// Native code for debug messages; trace records are folded into it.
pub const NATIVE_LOG_DEBUG: i32 = 400;

/// The native severity code that a record of severity `s` is forwarded with.
/// Total, with no fallback case: `Trace` maps to the debug code because the
/// native side has no trace level.
pub open spec fn native_level_spec(s: Severity) -> int {
    match s {
        Severity::Error => NATIVE_LOG_ERROR as int,
        Severity::Warning => NATIVE_LOG_WARNING as int,
        Severity::Info => NATIVE_LOG_INFO as int,
        Severity::Debug => NATIVE_LOG_DEBUG as int,
        Severity::Trace => NATIVE_LOG_DEBUG as int,
    }
}

/// Translate a severity to the native code it is forwarded with.
pub fn native_level(s: Severity) -> (code: i32)
    ensures
        code == native_level_spec(s),
{
    match s {
        Severity::Error => NATIVE_LOG_ERROR,
        Severity::Warning => NATIVE_LOG_WARNING,
        Severity::Info => NATIVE_LOG_INFO,
        Severity::Debug => NATIVE_LOG_DEBUG,
        Severity::Trace => NATIVE_LOG_DEBUG,
    }
}

/// The severity translation is lossy only at `Trace`: trace and debug records
/// share one native code, while `Error`, `Warning`, `Info` and `Debug` map
/// one-to-one to pairwise distinct native codes.
pub proof fn lemma_native_translation(a: Severity, b: Severity)
    ensures
        native_level_spec(Severity::Trace) == native_level_spec(Severity::Debug),
        a != Severity::Trace && b != Severity::Trace && native_level_spec(a)
            == native_level_spec(b) ==> a == b,
{
}

} // verus!
