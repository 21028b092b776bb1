//! Severity levels and their syslog codes.

use vstd::prelude::*;

verus! {

/// Severity of a log message, most severe first: a more severe level is the
/// smaller one.
#[derive(Clone, Copy, Debug, PartialEq, Eq, PartialOrd, Ord, Hash, Structural)]
pub enum Level {
    Emergency,
    Alert,
    Critical,
    Error,
    Warning,
    Notice,
    Informational,
    Debug,
}

/// Severity of a record as a generic logging facility reports it.
#[derive(Clone, Copy, Debug, PartialEq, Eq, Structural)]
pub enum RecordLevel {
    Error,
    Warn,
    Info,
    Debug,
    Trace,
}

impl Level {
    /// The syslog severity code of a level: 0 for the most severe, 7 for the least.
    pub open spec fn code_of(self) -> nat {
        match self {
            Level::Emergency => 0,
            Level::Alert => 1,
            Level::Critical => 2,
            Level::Error => 3,
            Level::Warning => 4,
            Level::Notice => 5,
            Level::Informational => 6,
            Level::Debug => 7,
        }
    }

    /// The level that stands for a record level of a generic logging facility.
    pub open spec fn of_record(level: RecordLevel) -> Level {
        match level {
            RecordLevel::Error => Level::Error,
            RecordLevel::Warn => Level::Warning,
            RecordLevel::Info => Level::Informational,
            RecordLevel::Debug => Level::Debug,
            RecordLevel::Trace => Level::Debug,
        }
    }

    /// The numeric code under which the level is serialised.
    pub fn code(&self) -> (c: u8)
        ensures
            c == self.code_of(),
            c <= 7,
    {
        match self {
            Level::Emergency => 0,
            Level::Alert => 1,
            Level::Critical => 2,
            Level::Error => 3,
            Level::Warning => 4,
            Level::Notice => 5,
            Level::Informational => 6,
            Level::Debug => 7,
        }
    }

    /// Maps the level of a generic log record to a GELF level.
    pub fn from_record_level(level: RecordLevel) -> (l: Level)
        ensures
            l == Level::of_record(level),
    {
        match level {
            RecordLevel::Error => Level::Error,
            RecordLevel::Warn => Level::Warning,
            RecordLevel::Info => Level::Informational,
            RecordLevel::Debug => Level::Debug,
            RecordLevel::Trace => Level::Debug,
        }
    }
}

/// Distinct levels have distinct codes, and every code is at most 7.
pub proof fn level_codes_are_distinct(a: Level, b: Level)
    ensures
        a.code_of() == b.code_of() <==> a == b,
        a.code_of() <= 7,
{
}

} // verus!
