//! Log emission modelled as values. The handler decides which leveled,
//! structured messages to emit; the host forwards them to its logging sink.

use vstd::prelude::*;
use vstd::string::StringExecFns;

verus! {

#[derive(Debug, PartialEq, Eq, Structural, Clone, Copy)]
pub enum LogLevel {
    Info,
    Warn,
}

/// One structured log message, always about a requested relative path.
pub enum LogEvent {
    /// Emitted before every open attempt: which file was asked for.
    Requested(String),
    /// Access to the path was denied (or it tried to escape the sandbox).
    Unauthorized(String),
    /// No file exists at the path.
    Missing(String),
}

impl LogEvent {
    /// The relative path the event speaks of.
    pub open spec fn path_spec(&self) -> Seq<char> {
        match self {
            LogEvent::Requested(p) => p@,
            LogEvent::Unauthorized(p) => p@,
            LogEvent::Missing(p) => p@,
        }
    }

    /// Only the pre-open notice is informational; both failure notices warn.
    pub open spec fn level_spec(&self) -> LogLevel {
        match self {
            LogEvent::Requested(_) => LogLevel::Info,
            LogEvent::Unauthorized(_) => LogLevel::Warn,
            LogEvent::Missing(_) => LogLevel::Warn,
        }
    }

    pub open spec fn message_spec(&self) -> Seq<char> {
        match self {
            LogEvent::Requested(p) => "Requested file: "@ + p@,
            LogEvent::Unauthorized(p) => "Unauthorized attempt to read: "@ + p@,
            LogEvent::Missing(p) => "File not found: "@ + p@,
        }
    }

    pub fn level(&self) -> (l: LogLevel)
        ensures
            l == self.level_spec(),
    {
        match self {
            LogEvent::Requested(_) => LogLevel::Info,
            LogEvent::Unauthorized(_) => LogLevel::Warn,
            LogEvent::Missing(_) => LogLevel::Warn,
        }
    }

    pub fn path(&self) -> (p: &String)
        ensures
            p@ == self.path_spec(),
    {
        match self {
            LogEvent::Requested(p) => p,
            LogEvent::Unauthorized(p) => p,
            LogEvent::Missing(p) => p,
        }
    }

    /// The message line as the host should print it.
    pub fn message(&self) -> (m: String)
        ensures
            m@ == self.message_spec(),
    {
        match self {
            LogEvent::Requested(p) => {
                let mut m = String::from_str("Requested file: ");
                m.append(p.as_str());
                m
            },
            LogEvent::Unauthorized(p) => {
                let mut m = String::from_str("Unauthorized attempt to read: ");
                m.append(p.as_str());
                m
            },
            LogEvent::Missing(p) => {
                let mut m = String::from_str("File not found: ");
                m.append(p.as_str());
                m
            },
        }
    }
}

} // verus!
