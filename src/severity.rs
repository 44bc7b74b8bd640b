use vstd::prelude::*;

verus! {

/// The facade's severity of a record, from the most severe to the most verbose.
#[derive(Clone, Copy, Debug, PartialEq, Eq, Structural)]
pub enum Severity {
    Error,
    Warn,
    Info,
    Debug,
    Trace,
}

impl Severity {
    /// Position of the severity in the facade's order: `Error` is 1 and
    /// `Trace` is 5, so a smaller rank means a more severe record.
    pub open spec fn rank(self) -> nat {
        match self {
            Severity::Error => 1,
            Severity::Warn => 2,
            Severity::Info => 3,
            Severity::Debug => 4,
            Severity::Trace => 5,
        }
    }

    /// Executable counterpart of [`Severity::rank`].
    pub fn level(&self) -> (r: u8)
        ensures
            r as nat == self.rank(),
    {
        match self {
            Severity::Error => 1,
            Severity::Warn => 2,
            Severity::Info => 3,
            Severity::Debug => 4,
            Severity::Trace => 5,
        }
    }

    /// True iff `self` is at least as severe as `other`.
    pub fn at_least_as_severe_as(&self, other: &Severity) -> (r: bool)
        ensures
            r == (self.rank() <= other.rank()),
    {
        self.level() <= other.level()
    }
}

/// The message types of the native logging system.
#[derive(Clone, Copy, Debug, PartialEq, Eq, Structural)]
pub enum OsLogType {
    Default,
    Info,
    Debug,
    Error,
    Fault,
}

/// The fixed table from facade severities to native message types.
pub open spec fn native_type_of(level: Severity) -> OsLogType {
    match level {
        Severity::Error => OsLogType::Fault,
        Severity::Warn => OsLogType::Error,
        Severity::Info => OsLogType::Default,
        Severity::Debug => OsLogType::Info,
        Severity::Trace => OsLogType::Debug,
    }
}

impl From<Severity> for OsLogType {
    fn from(other: Severity) -> (r: OsLogType) {
        match other {
            Severity::Error => OsLogType::Fault,
            Severity::Warn => OsLogType::Error,
            Severity::Info => OsLogType::Default,
            Severity::Debug => OsLogType::Info,
            Severity::Trace => OsLogType::Debug,
        }
    }
}

impl vstd::std_specs::convert::FromSpecImpl<Severity> for OsLogType {
    open spec fn obeys_from_spec() -> bool {
        true
    }

    open spec fn from_spec(v: Severity) -> OsLogType {
        native_type_of(v)
    }
}

} // verus!
