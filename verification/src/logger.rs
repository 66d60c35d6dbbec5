//! Log file policy: the line format and when the file is rotated. Writing
//! and renaming files is the caller's part.
use vstd::prelude::*;
use crate::text::{owned, push_str};

verus! {

/// A log file this large or larger is rotated: two mebibytes.
pub const LOG_ROTATE_BYTES: u64 = 2 * 1024 * 1024;

/// Severity of a log line.
#[derive(Clone, Copy, Debug, PartialEq, Eq, Structural)]
pub enum LogLevel {
    Info,
    Warn,
    Error,
    Debug,
}

pub open spec fn level_name(l: LogLevel) -> Seq<char> {
    match l {
        LogLevel::Info => "INFO"@,
        LogLevel::Warn => "WARN"@,
        LogLevel::Error => "ERROR"@,
        LogLevel::Debug => "DEBUG"@,
    }
}

impl LogLevel {
    pub fn name(self) -> (r: &'static str)
        ensures
            r@ == level_name(self),
    {
        match self {
            LogLevel::Info => "INFO",
            LogLevel::Warn => "WARN",
            LogLevel::Error => "ERROR",
            LogLevel::Debug => "DEBUG",
        }
    }
}

/// `[<timestamp>] <LEVEL>: <message>`.
pub fn log_line(timestamp: &str, level: LogLevel, message: &str) -> (r: String)
    ensures
        r@ == "["@ + timestamp@ + "] "@ + level_name(level) + ": "@ + message@,
{
    let mut out = owned("[");
    push_str(&mut out, timestamp);
    push_str(&mut out, "] ");
    push_str(&mut out, level.name());
    push_str(&mut out, ": ");
    push_str(&mut out, message);
    out
}

/// Whether a log file of the given size (unknown when it cannot be read) is
/// due for rotation.
pub fn should_rotate(size: Option<u64>) -> (r: bool)
    ensures
        r == (match size { Some(n) => n >= LOG_ROTATE_BYTES, None => false }),
{
    match size {
        Some(n) => n >= LOG_ROTATE_BYTES,
        None => false,
    }
}

/// The name the current log is moved to when it is rotated.
pub fn rotated_path(log_path: &str) -> (r: String)
    ensures
        r@ == log_path@ + ".1"@,
{
    let mut out = owned(log_path);
    push_str(&mut out, ".1");
    out
}

} // verus!
