//! The log level of a message from SQLite.
use vstd::prelude::*;

verus! {

/// SQLite's primary result code of a notice.
pub const SQLITE_NOTICE: i32 = 27;

/// SQLite's primary result code of a warning.
pub const SQLITE_WARNING: i32 = 28;

/// The level a log message is written at.
#[derive(Debug, Copy, Clone, PartialEq, Eq, Structural)]
pub enum LogLevel {
    Info,
    Warn,
    Error,
}

/// The level of a message SQLite logs with `error_code`: its primary result
/// code (the low byte) decides; notices are information, warnings are
/// warnings, and everything else is an error.
pub fn sqlite_log_level(error_code: i32) -> (r: LogLevel)
    ensures
        r == if error_code & 0xff == SQLITE_NOTICE {
            LogLevel::Info
        } else if error_code & 0xff == SQLITE_WARNING {
            LogLevel::Warn
        } else {
            LogLevel::Error
        },
{
    let primary = error_code & 0xff;
    if primary == SQLITE_NOTICE {
        LogLevel::Info
    } else if primary == SQLITE_WARNING {
        LogLevel::Warn
    } else {
        LogLevel::Error
    }
}

} // verus!
