//! Logging levels of the native library.

use vstd::prelude::*;

verus! {

/// Native code for no library logging.
pub const LOG_LEVEL_CODE_NONE: i32 = 0;
/// Native code for error messages only.
pub const LOG_LEVEL_CODE_ERROR: i32 = 1;
/// Native code for warning and error messages.
pub const LOG_LEVEL_CODE_WARNING: i32 = 2;
/// Native code for informational, warning and error messages.
pub const LOG_LEVEL_CODE_INFO: i32 = 3;
/// Native code for debug and all other messages.
pub const LOG_LEVEL_CODE_DEBUG: i32 = 4;

/// Library logging levels.
#[derive(Debug, Copy, Clone, PartialEq, Eq, Structural)]
pub enum LogLevel {
    /// No messages are printed by the native library (default).
    Off,
    /// Error messages printed to `stderr`.
    Error,
    /// Warning and error messages are printed to `stderr`.
    Warning,
    /// Informational messages are printed to `stdout`.  Warnings and
    /// error messages are printed to `stderr`.
    Info,
    /// Debug and informational messages are printed to `stdout`.
    /// Warnings and error messages are printed to `stderr`.
    Debug,
}

/// The native code of each logging level.
pub open spec fn spec_log_level_code(level: LogLevel) -> i32 {
    match level {
        LogLevel::Off => LOG_LEVEL_CODE_NONE,
        LogLevel::Error => LOG_LEVEL_CODE_ERROR,
        LogLevel::Warning => LOG_LEVEL_CODE_WARNING,
        LogLevel::Info => LOG_LEVEL_CODE_INFO,
        LogLevel::Debug => LOG_LEVEL_CODE_DEBUG,
    }
}

impl LogLevel {
    /// The code under which the native library knows this level.
    pub fn as_code(&self) -> (r: i32)
        ensures
            r == spec_log_level_code(*self),
    {
        match *self {
            LogLevel::Off => LOG_LEVEL_CODE_NONE,
            LogLevel::Error => LOG_LEVEL_CODE_ERROR,
            LogLevel::Warning => LOG_LEVEL_CODE_WARNING,
            LogLevel::Info => LOG_LEVEL_CODE_INFO,
            LogLevel::Debug => LOG_LEVEL_CODE_DEBUG,
        }
    }
}

} // verus!
