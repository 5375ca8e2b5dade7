//! Log records as plain values.
//!
//! The verified core never talks to the host's log facility itself: it
//! computes each record as a value, and the unverified boundary emits it.
//! This keeps every record's level and text inside the contracts.

use vstd::prelude::*;

verus! {

/// Severity of one log record.
#[derive(Clone, Copy, PartialEq, Eq, Structural, Debug)]
pub enum LogLevel {
    Info,
    Warn,
}

/// One log record bound for the host's log facility.
#[derive(Debug)]
pub struct LogRecord {
    pub level: LogLevel,
    pub message: String,
}

} // verus!
