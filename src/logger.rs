//! The provider: its own severity threshold, and what it sends for a record.
use vstd::prelude::*;

use crate::level::{Level, LevelFilter};
use crate::record::{format_record, LogRecord};

verus! {

/// A stateless logging provider that sends each record it accepts to an
/// attached debugger, as one line of text.
///
/// Its own threshold lets `Debug` and every more severe level through; it
/// applies in addition to the process-wide filter.
#[derive(Clone, Copy, Debug, PartialEq, Eq, Structural)]
pub struct DebuggerLogger;

/// The process's one provider value.
pub const DEBUGGER_LOGGER: DebuggerLogger = DebuggerLogger;

/// A string's characters, if there is a string.
pub open spec fn text_of(s: Option<String>) -> Option<Seq<char>> {
    match s {
        Some(t) => Some(t@),
        None => None,
    }
}

impl DebuggerLogger {
    /// The least severe level that the provider accepts.
    pub open spec fn threshold() -> Level {
        Level::Debug
    }

    /// Whether the provider accepts records at `level`.
    pub open spec fn enabled_spec(level: Level) -> bool {
        level.rank() <= Self::threshold().rank()
    }

    /// What the provider sends for `record`, given whether a debugger is
    /// attached: nothing unless it accepts the level and a debugger is there.
    pub open spec fn output(record: LogRecord, debugger_present: bool) -> Option<Seq<char>> {
        if Self::enabled_spec(record.level) && debugger_present {
            Some(record.line_spec())
        } else {
            None
        }
    }

    /// Whether the provider accepts records at `level`: `Error`, `Warn`,
    /// `Info` and `Debug` pass, `Trace` does not.
    pub fn enabled(&self, level: Level) -> (r: bool)
        ensures
            r == Self::enabled_spec(level),
    {
        level.at_least(Level::Debug)
    }

    /// The line to send to the debugger for `record`, if any. The caller
    /// says whether a debugger is attached; without one nothing is sent.
    pub fn log(&self, record: &LogRecord, debugger_present: bool) -> (r: Option<String>)
        ensures
            text_of(r) == Self::output(*record, debugger_present),
    {
        if self.enabled(record.level) && debugger_present {
            Some(format_record(record))
        } else {
            None
        }
    }

    /// Nothing is buffered, so there is nothing to flush.
    pub fn flush(&self) {
    }
}

/// What reaches the debugger for `record` when the process-wide filter is
/// `filter`: the record must pass both the filter and the provider.
pub open spec fn dispatched(filter: LevelFilter, record: LogRecord, debugger_present: bool) -> Option<
    Seq<char>,
> {
    if filter.admits_spec(record.level) {
        DebuggerLogger::output(record, debugger_present)
    } else {
        None
    }
}

/// Routes a record as the logging front end does: it is handed to the
/// provider only if the process-wide filter admits its level.
pub fn dispatch(filter: LevelFilter, record: &LogRecord, debugger_present: bool) -> (r: Option<
    String,
>)
    ensures
        text_of(r) == dispatched(filter, *record, debugger_present),
{
    if filter.admits(record.level) {
        DEBUGGER_LOGGER.log(record, debugger_present)
    } else {
        None
    }
}

/// Without a debugger the provider sends nothing, whatever the record.
pub proof fn lemma_no_debugger_no_output(record: LogRecord, filter: LevelFilter)
    ensures
        DebuggerLogger::output(record, false) is None,
        dispatched(filter, record, false) is None,
{
}

/// The provider accepts exactly the levels at or above its threshold, and
/// accepting a level means accepting every more severe one.
pub proof fn lemma_threshold_monotone(a: Level, b: Level)
    ensures
        DebuggerLogger::enabled_spec(a) <==> a.rank() <= Level::Debug.rank(),
        a.rank() <= b.rank() && DebuggerLogger::enabled_spec(b) ==> DebuggerLogger::enabled_spec(a),
        DebuggerLogger::enabled_spec(Level::Error),
        DebuggerLogger::enabled_spec(Level::Warn),
        DebuggerLogger::enabled_spec(Level::Info),
        DebuggerLogger::enabled_spec(Level::Debug),
        !DebuggerLogger::enabled_spec(Level::Trace),
{
}

/// With the filter at `Info`, `Debug` and `Trace` records send nothing even
/// though the provider accepts `Debug`; `Info`, `Warn` and `Error` records
/// are handed to the provider.
pub proof fn lemma_filter_gating(record: LogRecord, debugger_present: bool)
    ensures
        (record.level == Level::Debug || record.level == Level::Trace) ==> dispatched(
            LevelFilter::Info,
            record,
            debugger_present,
        ) is None,
        (record.level == Level::Error || record.level == Level::Warn || record.level
            == Level::Info) ==> dispatched(LevelFilter::Info, record, debugger_present)
            == DebuggerLogger::output(record, debugger_present),
{
}

} // verus!
