//! A logger adapter that forwards records of a generic logging facade to the
//! native unified logging system, mapping the facade's severities onto the
//! native message types.

mod adapter;
mod cstring;
mod endpoint;
mod install;
mod severity;

pub use adapter::{permits, trace_threshold_enables_every_severity, Dispatch, OsLog};
pub use cstring::{c_string_of, to_c_bytes};
pub use endpoint::LogEndpoint;
pub use install::{finish_install, FacadeThreshold};
pub use severity::{native_type_of, OsLogType, Severity};
