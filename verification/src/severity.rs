//! Severity levels and the threshold filter.
//!
//! A severity is one of `Off`, `Error`, `Warn`, `Info`, `Debug`, `Trace`,
//! ordered by verbosity (`Off` most restrictive). A record passes the filter
//! exactly when its severity is not `Off` and its verbosity does not exceed
//! the configured threshold's.

use vstd::prelude::*;

verus! {

/// A log severity, ordered by verbosity: `Off` admits nothing, `Trace`
/// admits everything.
#[derive(Clone, Copy, Debug, PartialEq, Eq, Structural)]
pub enum Severity {
    Off,
    Error,
    Warn,
    Info,
    Debug,
    Trace,
}

/// The numeric verbosity of a severity: 0 for `Off` up to 5 for `Trace`.
pub open spec fn verbosity(s: Severity) -> int {
    match s {
        Severity::Off => 0,
        Severity::Error => 1,
        Severity::Warn => 2,
        Severity::Info => 3,
        Severity::Debug => 4,
        Severity::Trace => 5,
    }
}

/// The severity a threshold code denotes, if the code is in range.
pub open spec fn spec_severity_of_code(code: int) -> Option<Severity> {
    if code == 0 {
        Some(Severity::Off)
    } else if code == 1 {
        Some(Severity::Error)
    } else if code == 2 {
        Some(Severity::Warn)
    } else if code == 3 {
        Some(Severity::Info)
    } else if code == 4 {
        Some(Severity::Debug)
    } else if code == 5 {
        Some(Severity::Trace)
    } else {
        None
    }
}

/// Whether a record of severity `sev` passes a filter configured with
/// `threshold`: `Off` records never pass, and otherwise the record's
/// verbosity must not exceed the threshold's.
pub open spec fn spec_enabled(sev: Severity, threshold: Severity) -> bool {
    sev != Severity::Off && verbosity(sev) <= verbosity(threshold)
}

impl Severity {
    /// Maps a threshold code to its severity: 0 is `Off`, 1 `Error`,
    /// 2 `Warn`, 3 `Info`, 4 `Debug`, 5 `Trace`; any other code is invalid.
    pub fn from_code(code: u8) -> (r: Option<Severity>)
        ensures
            r == spec_severity_of_code(code as int),
            r is Some <==> code <= 5,
    {
        match code {
            0 => Some(Severity::Off),
            1 => Some(Severity::Error),
            2 => Some(Severity::Warn),
            3 => Some(Severity::Info),
            4 => Some(Severity::Debug),
            5 => Some(Severity::Trace),
            _ => None,
        }
    }

    /// The numeric verbosity of this severity.
    pub fn code(&self) -> (c: u8)
        ensures
            c as int == verbosity(*self),
    {
        match self {
            Severity::Off => 0,
            Severity::Error => 1,
            Severity::Warn => 2,
            Severity::Info => 3,
            Severity::Debug => 4,
            Severity::Trace => 5,
        }
    }

    /// Whether a record of severity `self` passes a filter whose threshold
    /// is `threshold`.
    pub fn enabled_at(&self, threshold: Severity) -> (r: bool)
        ensures
            r == spec_enabled(*self, threshold),
    {
        let c = self.code();
        c != 0 && c <= threshold.code()
    }
}

} // verus!
