//! The severity model: five totally ordered levels and the admission
//! predicate shared by the master-ceiling check and every per-sink check.

use vstd::prelude::*;

verus! {

/// A record's severity, or a ceiling configured on a logger or a sink.
/// `Error` is the most severe level, `Trace` the least severe.
#[derive(Clone, Copy, Debug, PartialEq, Eq, Structural)]
pub enum Severity {
    Error,
    Warn,
    Info,
    Debug,
    Trace,
}

impl Severity {
    /// The position of the level in the order, counted from the most
    /// severe: `Error` is 0, `Trace` is 4.
    pub open spec fn ordinal(self) -> int {
        match self {
            Severity::Error => 0,
            Severity::Warn => 1,
            Severity::Info => 2,
            Severity::Debug => 3,
            Severity::Trace => 4,
        }
    }

    /// The ordinal as a machine integer.
    pub fn ordinal_value(self) -> (r: u8)
        ensures
            r as int == self.ordinal(),
    {
        match self {
            Severity::Error => 0,
            Severity::Warn => 1,
            Severity::Info => 2,
            Severity::Debug => 3,
            Severity::Trace => 4,
        }
    }
}

/// A ceiling admits a candidate severity iff the candidate is at least as
/// severe as the ceiling allows.
pub open spec fn spec_admits(ceiling: Severity, candidate: Severity) -> bool {
    candidate.ordinal() <= ceiling.ordinal()
}

/// The one admission check used everywhere a record is gated.
#[verifier::when_used_as_spec(spec_admits)]
pub fn admits(ceiling: Severity, candidate: Severity) -> (r: bool)
    ensures
        r == spec_admits(ceiling, candidate),
{
    candidate.ordinal_value() <= ceiling.ordinal_value()
}

} // verus!
