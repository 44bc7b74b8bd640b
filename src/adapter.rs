use crate::cstring::{c_string_of, to_c_bytes};
use crate::endpoint::LogEndpoint;
use crate::severity::{native_type_of, OsLogType, Severity};
use vstd::prelude::*;
use vstd::string::StringSliceAdditionalSpecFns;

verus! {

/// True iff an adapter whose threshold is `threshold` lets a record of
/// severity `level` through: `level` is at least as severe as `threshold`.
pub open spec fn permits(threshold: Severity, level: Severity) -> bool {
    level.rank() <= threshold.rank()
}

/// With the most verbose threshold, `Trace`, records of every severity are
/// let through.
pub proof fn trace_threshold_enables_every_severity(level: Severity)
    ensures
        permits(Severity::Trace, level),
{
}

/// What the adapter does with one record.
pub enum Dispatch {
    /// The record is below the threshold and is dropped.
    Skip,
    /// Emit the null-terminated message with the given native message type.
    Emit(OsLogType, Vec<u8>),
    /// The message holds an embedded null byte, which the native system cannot
    /// take: a defect of the caller.
    EmbeddedNul,
}

/// The adapter between the logging facade and the native logging system: a
/// native log endpoint and a severity threshold that is fixed when the adapter
/// is made.
pub struct OsLog<H> {
    log_object: LogEndpoint<H>,
    level: Severity,
}

impl<H> OsLog<H> {
    /// The least severe level that the adapter lets through.
    pub closed spec fn threshold(&self) -> Severity {
        self.level
    }

    /// The endpoint that the adapter's records go to.
    pub closed spec fn endpoint_spec(&self) -> &LogEndpoint<H> {
        &self.log_object
    }

    /// Makes an adapter for `endpoint` with the most verbose threshold.
    pub fn new(endpoint: LogEndpoint<H>) -> (r: Self)
        ensures
            r.threshold() == Severity::Trace,
            *r.endpoint_spec() == endpoint,
    {
        OsLog { log_object: endpoint, level: Severity::Trace }
    }

    /// The endpoint that the adapter's records go to.
    pub fn endpoint(&self) -> (r: &LogEndpoint<H>)
        ensures
            r == self.endpoint_spec(),
    {
        &self.log_object
    }

    /// The adapter's threshold.
    pub fn threshold_level(&self) -> (r: Severity)
        ensures
            r == self.threshold(),
    {
        self.level
    }

    /// True iff a record of severity `level` is let through.
    pub fn enabled(&self, level: Severity) -> (r: bool)
        ensures
            r == permits(self.threshold(), level),
    {
        level.at_least_as_severe_as(&self.level)
    }

    /// Decides what to do with a record of severity `level` whose rendered
    /// text is `message`.
    ///
    /// A record below the threshold is skipped whatever its text. Otherwise the
    /// text is encoded as a null-terminated byte sequence and emitted with the
    /// native type that `level` maps to; text with an embedded null byte is
    /// refused.
    pub fn dispatch(&self, level: Severity, message: &str) -> (r: Dispatch)
        ensures
            !permits(self.threshold(), level) ==> r is Skip,
            permits(self.threshold(), level) ==> match c_string_of(message.spec_bytes()) {
                Some(bytes) => r matches Dispatch::Emit(kind, encoded) && kind
                    == native_type_of(level) && encoded@ == bytes,
                None => r is EmbeddedNul,
            },
    {
        if !self.enabled(level) {
            return Dispatch::Skip;
        }
        match to_c_bytes(message) {
            Some(encoded) => Dispatch::Emit(OsLogType::from(level), encoded),
            None => Dispatch::EmbeddedNul,
        }
    }

    /// Nothing is buffered on this side of the native system, so there is
    /// nothing to flush.
    pub fn flush(&self) {
    }

    /// Tears the adapter down: yields the native handle that must be released,
    /// which is the endpoint's own where the adapter owns it, and nothing where
    /// it borrows the shared one.
    pub fn into_released(self) -> (r: Option<H>)
        ensures
            self.endpoint_spec() is Owned ==> r == Some(*self.endpoint_spec().handle_spec()),
            self.endpoint_spec() is Borrowed ==> r is None,
            (if r is Some { 1nat } else { 0nat }) == self.endpoint_spec().release_count(),
    {
        self.log_object.into_released()
    }
}

} // verus!
