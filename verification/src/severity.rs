//! Severity levels of log records and the global threshold filter.

use vstd::prelude::*;

verus! {

/// Severity of a single log record, from most to least important.
///
/// `Error` and `Debug` receive special handling: `Error` is always of
/// interest because it must be accounted for, and `Debug` is always of
/// interest so that debugging output never depends on the configured
/// threshold.
#[derive(Clone, Copy, PartialEq, Eq, Structural, Debug)]
pub enum Severity {
    Error,
    Warn,
    Info,
    Debug,
    Trace,
}

/// The configured maximum level: records of the remaining severities are
/// dropped when their rank exceeds the threshold's.
#[derive(Clone, Copy, PartialEq, Eq, Structural, Debug)]
pub enum LevelFilter {
    Off,
    Error,
    Warn,
    Info,
    Debug,
    Trace,
}

impl Severity {
    /// Numeric rank of a severity; lower means more important.
    pub open spec fn rank(self) -> int {
        match self {
            Severity::Error => 1,
            Severity::Warn => 2,
            Severity::Info => 3,
            Severity::Debug => 4,
            Severity::Trace => 5,
        }
    }
}

impl LevelFilter {
    /// Numeric rank of a threshold; a record passes the filter when its
    /// severity's rank is at most this.
    pub open spec fn rank(self) -> int {
        match self {
            LevelFilter::Off => 0,
            LevelFilter::Error => 1,
            LevelFilter::Warn => 2,
            LevelFilter::Info => 3,
            LevelFilter::Debug => 4,
            LevelFilter::Trace => 5,
        }
    }
}

/// Whether a record of severity `severity` is of interest under `threshold`:
/// `Error` and `Debug` always are, the rest only up to the threshold.
pub open spec fn spec_enabled(severity: Severity, threshold: LevelFilter) -> bool {
    severity == Severity::Error || severity == Severity::Debug || severity.rank()
        <= threshold.rank()
}

/// Decide whether a record of severity `severity` is of interest under
/// `threshold`.
pub fn enabled(severity: Severity, threshold: LevelFilter) -> (r: bool)
    ensures
        r == spec_enabled(severity, threshold),
{
    match severity {
        Severity::Error => true,
        Severity::Debug => true,
        Severity::Warn => matches!(threshold, LevelFilter::Warn | LevelFilter::Info | LevelFilter::Debug | LevelFilter::Trace),
        Severity::Info => matches!(threshold, LevelFilter::Info | LevelFilter::Debug | LevelFilter::Trace),
        Severity::Trace => matches!(threshold, LevelFilter::Trace),
    }
}

} // verus!
