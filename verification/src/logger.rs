//! Log lines that the user interface sends in.

use crate::text::same_text;
use vstd::prelude::*;

verus! {

/// How grave a log line is.
#[derive(Debug, Clone, Copy, PartialEq, Eq, Structural)]
pub enum LogLevel {
    Error,
    Warn,
    Info,
    Debug,
    Trace,
}

/// A log line of the user interface, ready to be written.
#[derive(Debug, PartialEq, Eq)]
pub struct LogRecord {
    pub level: LogLevel,
    pub context: String,
    pub message: String,
}

/// The level that the user interface means by `name`: one of `error`,
/// `warn`, `info` and `debug`, spelled so, and the lowest level for any
/// other name.
pub open spec fn level_named(name: Seq<char>) -> LogLevel {
    if name == "error"@ {
        LogLevel::Error
    } else if name == "warn"@ {
        LogLevel::Warn
    } else if name == "info"@ {
        LogLevel::Info
    } else if name == "debug"@ {
        LogLevel::Debug
    } else {
        LogLevel::Trace
    }
}

/// Makes the record of a log line of the user interface: the level that
/// `level` names, the message as it came, and the context, which is empty if
/// none was given.
pub fn log_from_frontend(level: String, message: String, context: Option<String>) -> (record:
    LogRecord)
    ensures
        record.level == level_named(level@),
        record.message@ == message@,
        record.context@ == match context {
            Some(text) => text@,
            None => Seq::empty(),
        },
{
    let name = level.as_str();
    let level = if same_text(name, "error") {
        LogLevel::Error
    } else if same_text(name, "warn") {
        LogLevel::Warn
    } else if same_text(name, "info") {
        LogLevel::Info
    } else if same_text(name, "debug") {
        LogLevel::Debug
    } else {
        LogLevel::Trace
    };
    let context = match context {
        Some(text) => text,
        None => String::new(),
    };
    LogRecord { level, context, message }
}

} // verus!
