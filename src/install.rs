use crate::severity::Severity;
use log::{LevelFilter, SetLoggerError};
use vstd::prelude::*;

verus! {

#[verifier::external_type_specification]
#[verifier::external_body]
pub struct ExSetLoggerError(SetLoggerError);

/// What the library knows of the facade's global threshold: the level that was
/// last set through this value, or `None` where none was.
pub struct FacadeThreshold {
    filter: Ghost<Option<Severity>>,
}

impl FacadeThreshold {
    /// The level last set through this value, if any.
    pub closed spec fn filter(&self) -> Option<Severity> {
        self.filter@
    }

    /// A record of the facade's threshold that no call has set yet.
    pub fn unset() -> (r: FacadeThreshold)
        ensures
            r.filter() is None,
    {
        FacadeThreshold { filter: Ghost(None) }
    }
}

/// Relies on log::set_max_level: stores the filter that admits `level` and
/// everything more severe as the facade's global threshold.
#[verifier::external_body]
fn set_max_level(level: Severity, facade: &mut FacadeThreshold)
    ensures
        final(facade).filter() == Some(level),
{
    log::set_max_level(
        match level {
            Severity::Error => LevelFilter::Error,
            Severity::Warn => LevelFilter::Warn,
            Severity::Info => LevelFilter::Info,
            Severity::Debug => LevelFilter::Debug,
            Severity::Trace => LevelFilter::Trace,
        },
    )
}

/// Completes the installation of a logger as the process-wide one, given what
/// registering it with the facade returned.
///
/// Where the registration succeeded, the facade's global threshold is set to
/// `level`. Where another logger had already been installed, the facade's
/// error is handed back and the threshold is left as it was.
pub fn finish_install(
    installed: Result<(), SetLoggerError>,
    level: Severity,
    facade: &mut FacadeThreshold,
) -> (r: Result<(), SetLoggerError>)
    ensures
        r == installed,
        installed is Ok ==> final(facade).filter() == Some(level),
        installed is Err ==> final(facade).filter() == old(facade).filter(),
{
    match installed {
        Ok(done) => {
            set_max_level(level, facade);
            Ok(done)
        },
        Err(e) => Err(e),
    }
}

} // verus!
