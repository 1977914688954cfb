use wasm_bindgen_console_logger::{
    format_message, Channel, ConsoleLogger, DefaultFormatter, Dispatch, Level, Record,
};

const ALL_LEVELS: [Level; 5] = [Level::Error, Level::Warn, Level::Info, Level::Debug, Level::Trace];

fn record(level: Level, message: &str) -> Record {
    Record { level, message: message.to_string() }
}

fn written(d: Option<Dispatch>) -> (Channel, String) {
    let d = d.expect("the record should be written");
    (d.channel, d.text)
}

#[test]
fn threshold_lets_through_exactly_the_more_severe_levels() {
    for (t, threshold) in ALL_LEVELS.iter().enumerate() {
        let logger = ConsoleLogger::with_level(*threshold);
        for (s, level) in ALL_LEVELS.iter().enumerate() {
            assert_eq!(logger.enabled(*level), s <= t, "level {:?}, threshold {:?}", level, threshold);
        }
    }
}

#[test]
fn warn_threshold_examples() {
    let logger = ConsoleLogger::with_level(Level::Warn);
    assert!(logger.enabled(Level::Error));
    assert!(logger.enabled(Level::Warn));
    assert!(!logger.enabled(Level::Info));
    assert!(!logger.enabled(Level::Debug));
    assert!(!logger.enabled(Level::Trace));
}

#[test]
fn default_logger_enables_every_level() {
    let logger: ConsoleLogger<DefaultFormatter> = ConsoleLogger::default();
    for level in ALL_LEVELS {
        assert!(logger.enabled(level));
        assert!(logger.log(&record(level, "m")).is_some());
    }
}

#[test]
fn disabled_record_is_not_written() {
    let logger = ConsoleLogger::with_level(Level::Error);
    for level in [Level::Warn, Level::Info, Level::Debug, Level::Trace] {
        assert!(logger.log(&record(level, "msg")).is_none());
    }
}

#[test]
fn disabled_record_is_not_formatted() {
    let calls = std::cell::Cell::new(0u32);
    let logger = ConsoleLogger::new(
        |r: &Record| {
            calls.set(calls.get() + 1);
            r.message.clone()
        },
        Level::Info,
    );
    assert!(logger.log(&record(Level::Trace, "quiet")).is_none());
    assert_eq!(calls.get(), 0);
    assert!(logger.log(&record(Level::Info, "loud")).is_some());
    assert_eq!(calls.get(), 1);
}

#[test]
fn error_goes_to_the_error_channel() {
    let logger = ConsoleLogger::with_level(Level::Trace);
    assert_eq!(
        written(logger.log(&record(Level::Error, "msg"))),
        (Channel::Error, "ERROR: msg".to_string())
    );
}

#[test]
fn warn_goes_to_the_warn_channel() {
    let logger = ConsoleLogger::with_level(Level::Trace);
    assert_eq!(
        written(logger.log(&record(Level::Warn, "msg"))),
        (Channel::Warn, "WARN: msg".to_string())
    );
}

#[test]
fn other_levels_go_to_the_log_channel() {
    let logger = ConsoleLogger::with_level(Level::Trace);
    assert_eq!(written(logger.log(&record(Level::Info, "msg"))), (Channel::Log, "msg".to_string()));
    assert_eq!(
        written(logger.log(&record(Level::Debug, "msg"))),
        (Channel::Log, "DEBUG: msg".to_string())
    );
    assert_eq!(written(logger.log(&record(Level::Trace, "msg"))), (Channel::Log, "msg".to_string()));
}

#[test]
fn default_formatting_of_each_level() {
    assert_eq!(format_message(&record(Level::Error, "x")), "ERROR: x");
    assert_eq!(format_message(&record(Level::Info, "x")), "x");
    assert_eq!(format_message(&record(Level::Warn, "x")), "WARN: x");
    assert_eq!(format_message(&record(Level::Debug, "x")), "DEBUG: x");
    assert_eq!(format_message(&record(Level::Trace, "x")), "x");
}

#[test]
fn default_formatting_of_an_empty_message() {
    assert_eq!(format_message(&record(Level::Error, "")), "ERROR: ");
    assert_eq!(format_message(&record(Level::Info, "")), "");
}

#[test]
fn level_names() {
    let names: Vec<&str> = ALL_LEVELS.iter().map(|l| l.as_str()).collect();
    assert_eq!(names, vec!["ERROR", "WARN", "INFO", "DEBUG", "TRACE"]);
}

#[test]
fn severity_order() {
    assert!(Level::Error.is_at_least_as_severe_as(Level::Warn));
    assert!(Level::Debug.is_at_least_as_severe_as(Level::Debug));
    assert!(!Level::Trace.is_at_least_as_severe_as(Level::Debug));
    assert!(!Level::Info.is_at_least_as_severe_as(Level::Warn));
}

#[test]
fn logging_twice_gives_two_identical_writes() {
    let logger = ConsoleLogger::with_level(Level::Info);
    let r = record(Level::Warn, "again");
    let first = written(logger.log(&r));
    let second = written(logger.log(&r));
    assert_eq!(first, second);
    assert_eq!(first, (Channel::Warn, "WARN: again".to_string()));
}

#[test]
fn custom_formatter_output_is_written_unchanged() {
    let logger = ConsoleLogger::new(|r: &Record| format!("[{}] {}", r.message.len(), r.message), Level::Trace);
    assert_eq!(
        written(logger.log(&record(Level::Error, "boom"))),
        (Channel::Error, "[4] boom".to_string())
    );
    assert_eq!(
        written(logger.log(&record(Level::Debug, "dbg"))),
        (Channel::Log, "[3] dbg".to_string())
    );
}
