use vstd::prelude::*;

verus! {

/// Ordered log level: `Trace < Debug < Info < Warn < Error`.
#[derive(Clone, Copy, PartialEq, Eq, Structural, Debug)]
pub enum Severity {
    Trace,
    Debug,
    Info,
    Warn,
    Error,
}

/// Position of a level in the severity order.
pub open spec fn severity_rank(s: Severity) -> int {
    match s {
        Severity::Trace => 0,
        Severity::Debug => 1,
        Severity::Info => 2,
        Severity::Warn => 3,
        Severity::Error => 4,
    }
}

/// Whether an event at level `sev` clears the minimum level `min`.
pub open spec fn severity_passes(min: Severity, sev: Severity) -> bool {
    severity_rank(sev) >= severity_rank(min)
}

/// The upper-case label a record carries for each level.
pub open spec fn severity_label(s: Severity) -> Seq<char> {
    match s {
        Severity::Trace => "TRACE"@,
        Severity::Debug => "DEBUG"@,
        Severity::Info => "INFO"@,
        Severity::Warn => "WARN"@,
        Severity::Error => "ERROR"@,
    }
}

impl Severity {
    fn rank(self) -> (r: u8)
        ensures
            r as int == severity_rank(self),
    {
        match self {
            Severity::Trace => 0,
            Severity::Debug => 1,
            Severity::Info => 2,
            Severity::Warn => 3,
            Severity::Error => 4,
        }
    }

    /// Whether an event at level `self` clears the minimum level `min`.
    pub fn at_least(self, min: Severity) -> (r: bool)
        ensures
            r == severity_passes(min, self),
    {
        self.rank() >= min.rank()
    }

    /// The label used in the `severity` field of a record.
    pub fn as_str(self) -> (r: &'static str)
        ensures
            r@ == severity_label(self),
    {
        match self {
            Severity::Trace => "TRACE",
            Severity::Debug => "DEBUG",
            Severity::Info => "INFO",
            Severity::Warn => "WARN",
            Severity::Error => "ERROR",
        }
    }
}

} // verus!
