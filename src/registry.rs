//! Installing the provider in the process-wide registry of the `log` crate,
//! which holds at most one provider for the life of the process, and setting
//! the registry's severity filter.
use vstd::prelude::*;

use crate::level::LevelFilter;

verus! {

#[verifier::external_type_specification]
#[verifier::external_body]
pub struct ExSetLoggerError(log::SetLoggerError);

/// Registration failed because a provider is already active.
#[derive(Clone, Copy, Debug, PartialEq, Eq, Structural)]
pub struct AlreadyRegisteredError;

/// The warning sent straight to the debugger when registration fails.
pub open spec fn warning_text() -> Seq<char> {
    "Warning: Failed to register DebuggerLogger as the current Rust logger.\r\n"@
}

/// Relies on `log::set_logger`: it installs `logger` if no provider is
/// installed yet and fails otherwise. Whether it succeeds depends on the
/// process's earlier calls, so nothing is stated of the outcome.
#[verifier::external_body]
fn set_logger<L: log::Log>(logger: &'static L) -> (r: Result<(), log::SetLoggerError>) {
    log::set_logger(logger)
}

/// Relies on `log::set_max_level`: it stores the process-wide filter.
#[verifier::external_body]
fn set_max_level(filter: LevelFilter) {
    let level = match filter {
        LevelFilter::Off => log::LevelFilter::Off,
        LevelFilter::Error => log::LevelFilter::Error,
        LevelFilter::Warn => log::LevelFilter::Warn,
        LevelFilter::Info => log::LevelFilter::Info,
        LevelFilter::Debug => log::LevelFilter::Debug,
        LevelFilter::Trace => log::LevelFilter::Trace,
    };
    log::set_max_level(level)
}

/// Installs `logger` as the process's provider.
pub fn register<L: log::Log>(logger: &'static L) -> (r: Result<(), AlreadyRegisteredError>) {
    match set_logger(logger) {
        Ok(()) => Ok(()),
        Err(_) => Err(AlreadyRegisteredError),
    }
}

/// Sets the process-wide filter: records more verbose than `filter` no longer
/// reach the provider.
pub fn set_severity_filter(filter: LevelFilter) {
    set_max_level(filter)
}

/// What to send to the debugger after a registration attempt: nothing on
/// success, the fixed warning on failure.
pub fn registration_warning(outcome: Result<(), AlreadyRegisteredError>) -> (r: Option<
    &'static str,
>)
    ensures
        outcome is Ok ==> r is None,
        outcome is Err ==> r is Some && r->0@ == warning_text(),
{
    match outcome {
        Ok(()) => None,
        Err(_) => {
            let w = "Warning: Failed to register DebuggerLogger as the current Rust logger.\r\n";
            proof {
                reveal_strlit(
                    "Warning: Failed to register DebuggerLogger as the current Rust logger.\r\n",
                );
            }
            Some(w)
        },
    }
}

/// Registers `logger` and never fails: if a provider is already active the
/// error is swallowed and the warning to send to the debugger is returned.
pub fn init<L: log::Log>(logger: &'static L) -> (r: Option<&'static str>)
    ensures
        r is Some ==> r->0@ == warning_text(),
{
    registration_warning(register(logger))
}

/// Registers `logger` as `init` does, then sets the process-wide filter to
/// `filter`. Returns the warning to send, if registration failed.
pub fn init_at_level<L: log::Log>(logger: &'static L, filter: LevelFilter) -> (r: Option<
    &'static str,
>)
    ensures
        r is Some ==> r->0@ == warning_text(),
{
    let r = init(logger);
    set_severity_filter(filter);
    r
}

} // verus!
