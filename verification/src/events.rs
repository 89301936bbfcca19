//! Structured log events produced by the supervision core.
//!
//! Every failure that the core observes in steady state — a worker exit, a
//! failed write, a failed registration — surfaces as exactly one
//! [`LogEvent`] on the fire-and-forget log channel; nothing in the core
//! terminates the host.

use vstd::prelude::*;

verus! {

/// Severity of a log event.
#[derive(Clone, Copy, Debug, PartialEq, Eq, Structural)]
pub enum LogLevel {
    Info,
    Warning,
    Error,
}

/// One immutable log record: a message and its severity.
#[derive(Clone, Debug)]
pub struct LogEvent {
    pub message: String,
    pub level: LogLevel,
}

impl LogEvent {
    /// True when the event carries exactly this level and message text.
    pub open spec fn is_event(self, level: LogLevel, message: Seq<char>) -> bool {
        self.level == level && self.message@ == message
    }

    /// Build an event from a level and a message.
    pub fn new(level: LogLevel, message: String) -> (e: LogEvent)
        ensures
            e.is_event(level, message@),
    {
        LogEvent { message, level }
    }
}

} // verus!
