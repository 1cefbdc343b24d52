//! The five log severities, ordered from most to least severe, and their
//! canonical display names.

use vstd::prelude::*;

verus! {

/// Severity of a log record. Ordered: `Error` is the most severe,
/// `Trace` the least.
#[derive(Clone, Copy, PartialEq, Eq, Structural, Debug)]
pub enum Severity {
    Error,
    Warn,
    Info,
    Debug,
    Trace,
}

impl Severity {
    /// Rank of a severity: higher rank means more severe.
    pub open spec fn rank(self) -> nat {
        match self {
            Severity::Error => 4,
            Severity::Warn => 3,
            Severity::Info => 2,
            Severity::Debug => 1,
            Severity::Trace => 0,
        }
    }

    /// Canonical upper-case name of a severity.
    pub open spec fn spec_canonical_name(self) -> Seq<char> {
        match self {
            Severity::Error => "ERROR"@,
            Severity::Warn => "WARN"@,
            Severity::Info => "INFO"@,
            Severity::Debug => "DEBUG"@,
            Severity::Trace => "TRACE"@,
        }
    }

    /// Canonical upper-case name, as the underlying logging facade prints it.
    pub fn canonical_name(self) -> (r: &'static str)
        ensures
            r@ == self.spec_canonical_name(),
    {
        match self {
            Severity::Error => "ERROR",
            Severity::Warn => "WARN",
            Severity::Info => "INFO",
            Severity::Debug => "DEBUG",
            Severity::Trace => "TRACE",
        }
    }

    /// True when `self` is at least as severe as `other`.
    pub fn at_least(self, other: Severity) -> (r: bool)
        ensures
            r == (self.rank() >= other.rank()),
    {
        let a: u8 = match self {
            Severity::Error => 4,
            Severity::Warn => 3,
            Severity::Info => 2,
            Severity::Debug => 1,
            Severity::Trace => 0,
        };
        let b: u8 = match other {
            Severity::Error => 4,
            Severity::Warn => 3,
            Severity::Info => 2,
            Severity::Debug => 1,
            Severity::Trace => 0,
        };
        a >= b
    }
}

} // verus!
