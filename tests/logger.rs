use win_dbg_logger::{
    dispatch, format_record, DebuggerLogger, Level, LevelFilter, LogRecord, DEBUGGER_LOGGER,
};

fn record(level: Level, file: Option<&str>, line: Option<u32>, message: &str) -> LogRecord {
    LogRecord {
        level,
        file: file.map(String::from),
        line,
        message: String::from(message),
    }
}

const ALL_LEVELS: [Level; 5] = [Level::Error, Level::Warn, Level::Info, Level::Debug, Level::Trace];

#[test]
fn enabled_up_to_debug() {
    let logger = DebuggerLogger;
    assert!(logger.enabled(Level::Error));
    assert!(logger.enabled(Level::Warn));
    assert!(logger.enabled(Level::Info));
    assert!(logger.enabled(Level::Debug));
    assert!(!logger.enabled(Level::Trace));
}

#[test]
fn enabled_does_not_depend_on_earlier_calls() {
    let logger = DEBUGGER_LOGGER;
    let first: Vec<bool> = ALL_LEVELS.iter().map(|l| logger.enabled(*l)).collect();
    let rec = record(Level::Error, Some("x.rs"), Some(1), "m");
    let _ = logger.log(&rec, true);
    logger.flush();
    let second: Vec<bool> = ALL_LEVELS.iter().rev().map(|l| logger.enabled(*l)).collect();
    let mut second_in_order = second.clone();
    second_in_order.reverse();
    assert_eq!(first, second_in_order);
    assert_eq!(first, vec![true, true, true, true, false]);
}

#[test]
fn format_with_location() {
    let rec = record(Level::Warn, Some("foo.rs"), Some(42), "bad thing");
    assert_eq!(format_record(&rec), "foo.rs(42): WARN - bad thing\r\n");
}

#[test]
fn format_without_location() {
    let rec = record(Level::Warn, None, None, "bad thing");
    assert_eq!(format_record(&rec), "<unknown>(0): WARN - bad thing\r\n");
}

#[test]
fn format_each_level_name() {
    let names = ["ERROR", "WARN", "INFO", "DEBUG", "TRACE"];
    for (level, name) in ALL_LEVELS.iter().zip(names.iter()) {
        assert_eq!(level.as_str(), *name);
        let rec = record(*level, Some("f"), Some(1), "m");
        assert_eq!(format_record(&rec), format!("f(1): {} - m\r\n", name));
    }
}

#[test]
fn format_line_number_edges() {
    let zero = record(Level::Info, Some("a.rs"), Some(0), "");
    assert_eq!(format_record(&zero), "a.rs(0): INFO - \r\n");
    let ten = record(Level::Info, Some("a.rs"), Some(10), "z");
    assert_eq!(format_record(&ten), "a.rs(10): INFO - z\r\n");
    let max = record(Level::Error, Some("a.rs"), Some(u32::MAX), "z");
    assert_eq!(format_record(&max), "a.rs(4294967295): ERROR - z\r\n");
}

#[test]
fn format_keeps_file_without_line() {
    let rec = record(Level::Debug, Some("b.rs"), None, "m");
    assert_eq!(format_record(&rec), "b.rs(0): DEBUG - m\r\n");
    let rec = record(Level::Debug, None, Some(9), "m");
    assert_eq!(format_record(&rec), "<unknown>(9): DEBUG - m\r\n");
}

#[test]
fn log_sends_formatted_line_with_debugger() {
    let rec = record(Level::Warn, Some("foo.rs"), Some(42), "bad thing");
    assert_eq!(
        DEBUGGER_LOGGER.log(&rec, true),
        Some(String::from("foo.rs(42): WARN - bad thing\r\n"))
    );
}

#[test]
fn log_without_debugger_sends_nothing() {
    for level in ALL_LEVELS.iter() {
        let rec = record(*level, Some("foo.rs"), Some(42), "bad thing");
        assert_eq!(DEBUGGER_LOGGER.log(&rec, false), None);
        assert_eq!(dispatch(LevelFilter::Trace, &rec, false), None);
    }
}

#[test]
fn log_trace_is_below_threshold() {
    let rec = record(Level::Trace, Some("foo.rs"), Some(42), "bad thing");
    assert_eq!(DEBUGGER_LOGGER.log(&rec, true), None);
    assert_eq!(dispatch(LevelFilter::Trace, &rec, true), None);
}

#[test]
fn filter_info_gates_debug_and_trace() {
    for level in [Level::Debug, Level::Trace].iter() {
        let rec = record(*level, Some("g.rs"), Some(3), "hidden");
        assert_eq!(dispatch(LevelFilter::Info, &rec, true), None);
    }
    for (level, name) in [(Level::Error, "ERROR"), (Level::Warn, "WARN"), (Level::Info, "INFO")].iter() {
        let rec = record(*level, Some("g.rs"), Some(3), "shown");
        assert_eq!(
            dispatch(LevelFilter::Info, &rec, true),
            Some(format!("g.rs(3): {} - shown\r\n", name))
        );
    }
}

#[test]
fn filter_off_admits_nothing() {
    for level in ALL_LEVELS.iter() {
        assert!(!LevelFilter::Off.admits(*level));
        let rec = record(*level, Some("g.rs"), Some(3), "m");
        assert_eq!(dispatch(LevelFilter::Off, &rec, true), None);
    }
    assert!(LevelFilter::Error.admits(Level::Error));
    assert!(!LevelFilter::Error.admits(Level::Warn));
    assert!(LevelFilter::Trace.admits(Level::Trace));
}

#[test]
fn level_order() {
    assert!(Level::Error.at_least(Level::Warn));
    assert!(Level::Debug.at_least(Level::Debug));
    assert!(!Level::Trace.at_least(Level::Debug));
}
