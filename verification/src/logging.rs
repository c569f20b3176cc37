//! The lines of the server log.

use crate::text::{concat2, concat3, lossy_text, utf8_lossy};
use vstd::prelude::*;

verus! {

/// Severity level attached to a server log message.
#[derive(Clone, Copy, Debug, PartialEq, Eq, Structural)]
pub enum Level {
    /// Informational message about normal server activity.
    Info,
    /// Error message about failed server activity.
    Error,
}

/// The label of a severity level.
pub open spec fn level_label(level: Level) -> Seq<char> {
    match level {
        Level::Info => "INFO"@,
        Level::Error => "ERROR"@,
    }
}

impl Level {
    /// The severity level as a stable uppercase label.
    pub fn label(&self) -> (r: &'static str)
        ensures
            r@ == level_label(*self),
    {
        match *self {
            Level::Info => "INFO",
            Level::Error => "ERROR",
        }
    }
}

/// The log line of a message.
pub open spec fn log_line(level: Level, message: Seq<char>) -> Seq<char> {
    level_label(level) + ": "@ + message + "\n"@
}

/// Writes the log line of a message.
pub fn format_log_line(level: Level, message: &str) -> (r: String)
    ensures
        r@ == log_line(level, message@),
{
    let mut line = concat3(level.label(), ": ", message);
    line.append("\n");
    line
}

/// Writes what stderr is told when a line cannot be appended to the log file of this path, before
/// the line itself.
pub fn format_log_failure(path: &[u8], cause: &str) -> (r: String)
    ensures
        r@ == "ERROR: failed to write log file "@ + lossy_text(path@) + ": "@ + cause@,
{
    let mut line = concat2("ERROR: failed to write log file ", utf8_lossy(path).as_str());
    line.append(": ");
    line.append(cause);
    line
}

} // verus!
