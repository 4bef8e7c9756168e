use win_dbg_logger::{dispatch, init_at_level, Level, LevelFilter, LogRecord};

const WARNING: &str = "Warning: Failed to register DebuggerLogger as the current Rust logger.\r\n";

struct Sink;

impl log::Log for Sink {
    fn enabled(&self, _metadata: &log::Metadata) -> bool {
        true
    }

    fn log(&self, _record: &log::Record) {}

    fn flush(&self) {}
}

#[test]
fn trace_init_then_debug_record() {
    let warning = init_at_level(&Sink, LevelFilter::Trace);
    assert!(warning.is_none() || warning == Some(WARNING));
    assert_eq!(log::max_level(), log::LevelFilter::Trace);
    let rec = LogRecord {
        level: Level::Debug,
        file: Some(String::from("a.c")),
        line: Some(7),
        message: String::from("x=5"),
    };
    assert_eq!(
        dispatch(LevelFilter::Trace, &rec, true),
        Some(String::from("a.c(7): DEBUG - x=5\r\n"))
    );
    assert_eq!(dispatch(LevelFilter::Trace, &rec, false), None);
}

