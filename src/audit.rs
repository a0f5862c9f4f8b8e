//! Audit events: their severity and the line each one is written as.
use vstd::prelude::*;
use crate::text::{joined, str_eq};

verus! {

/// The severity of an audit event.
#[derive(Clone, Copy, Debug, PartialEq, Eq, Structural)]
pub enum AuditLevel {
    Info,
    Warning,
    Error,
}

/// The name of a level, as written in the log.
pub open spec fn level_name(l: AuditLevel) -> Seq<char> {
    match l {
        AuditLevel::Info => "INFO"@,
        AuditLevel::Warning => "WARNING"@,
        AuditLevel::Error => "ERROR"@,
    }
}

impl AuditLevel {
    /// The name of this level, as written in the log.
    pub fn name(&self) -> (r: &'static str)
        ensures
            r@ == level_name(*self),
    {
        match self {
            AuditLevel::Info => "INFO",
            AuditLevel::Warning => "WARNING",
            AuditLevel::Error => "ERROR",
        }
    }
}

/// The log line of an event: `[timestamp] [LEVEL] message` and a newline.
pub open spec fn line_of(timestamp: Seq<char>, level: AuditLevel, message: Seq<char>) -> Seq<char> {
    "["@ + timestamp + "] ["@ + level_name(level) + "] "@ + message + "\n"@
}

/// Returns the log line of an event.
pub fn audit_line(timestamp: &str, level: AuditLevel, message: &str) -> (r: String)
    ensures
        r@ == line_of(timestamp@, level, message@),
{
    let mut r = joined("[", timestamp);
    r.append("] [");
    r.append(level.name());
    r.append("] ");
    r.append(message);
    r.append("\n");
    r
}

/// Whether the value of the debug-backtrace setting turns backtraces on.
pub open spec fn backtrace_enabled(value: Option<Seq<char>>) -> bool {
    value matches Some(v) && (v == "1"@ || v == "full"@)
}

/// Whether startup is to audit a warning for the debug-backtrace setting,
/// given its value (`None` where it is not set): it is "1" or "full".
pub fn backtrace_warning(value: Option<&str>) -> (r: bool)
    ensures
        r == backtrace_enabled(
            match value {
                Some(v) => Some(v@),
                None => None,
            },
        ),
{
    match value {
        Some(v) => str_eq(v, "1") || str_eq(v, "full"),
        None => false,
    }
}

} // verus!
