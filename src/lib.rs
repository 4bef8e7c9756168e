//! A logging provider that forwards records to the channel of a debugger
//! attached to the process.
//!
//! The library holds the decisions: which severities pass the provider's own
//! threshold and the process-wide filter, how a record becomes one line of
//! text, and what happens when the provider cannot be registered. Writing to
//! the debugger and asking whether one is attached are left to the caller,
//! which hands the answer in and sends out what comes back.
use vstd::prelude::*;

pub mod level;
pub mod logger;
pub mod record;
pub mod registry;

pub use level::{Level, LevelFilter};
pub use logger::{dispatch, DebuggerLogger, DEBUGGER_LOGGER};
pub use record::{format_record, LogRecord};
pub use registry::{init, init_at_level, register, registration_warning, set_severity_filter, AlreadyRegisteredError};

verus! {

} // verus!
