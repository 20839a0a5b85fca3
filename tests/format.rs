use ccommon_rs::{format_line, timestamp_now, Level, LogRecord, RawLogger};

#[test]
fn format_line_pads_level_to_five() {
    assert_eq!(
        format_line("2024-01-02 03:04:05", Level::Info, "m", "hi"),
        "2024-01-02 03:04:05 INFO  [m] hi\n"
    );
    assert_eq!(format_line("T", Level::Error, "a::b", "x y"), "T ERROR [a::b] x y\n");
    assert_eq!(format_line("", Level::Warn, "", ""), " WARN  [] \n");
    assert_eq!(format_line("t", Level::Debug, "d", "m"), "t DEBUG [d] m\n");
    assert_eq!(format_line("t", Level::Trace, "d", "m"), "t TRACE [d] m\n");
}

#[test]
fn level_names_and_order() {
    assert_eq!(Level::Error.as_str(), "ERROR");
    assert_eq!(Level::Warn.as_str(), "WARN");
    assert_eq!(Level::Info.as_str(), "INFO");
    assert_eq!(Level::Debug.as_str(), "DEBUG");
    assert_eq!(Level::Trace.as_str(), "TRACE");
    assert_eq!(Level::Error.as_usize(), 1);
    assert_eq!(Level::Trace.as_usize(), 5);
    assert_eq!(Level::from_usize(3), Some(Level::Info));
    assert_eq!(Level::from_usize(0), None);
    assert_eq!(Level::from_usize(6), None);
    assert!(Level::Error.passes(Level::Warn));
    assert!(Level::Warn.passes(Level::Warn));
    assert!(!Level::Info.passes(Level::Warn));
}

#[test]
fn raw_logger_renders_only_enabled_records() {
    let sink = RawLogger::new(1u8, Level::Info);
    assert!(sink.enabled(Level::Error));
    assert!(sink.enabled(Level::Info));
    assert!(!sink.enabled(Level::Debug));
    let rec = LogRecord { level: Level::Warn, module_name: None, message: "disk low".to_string() };
    assert_eq!(sink.render("NOW", &rec), Some("NOW WARN  [] disk low\n".to_string()));
    let quiet = LogRecord { level: Level::Trace, module_name: None, message: "x".to_string() };
    assert_eq!(sink.render("NOW", &quiet), None);
    assert_eq!(sink.log(&quiet), None);
}

#[test]
fn timestamp_is_formatted_time() {
    let ts = timestamp_now();
    assert_eq!(ts.len(), 19);
    assert!(!ts.contains('%'));
    let b = ts.as_bytes();
    assert_eq!(b[4], b'-');
    assert_eq!(b[7], b'-');
    assert_eq!(b[10], b' ');
    assert_eq!(b[13], b':');
    assert_eq!(b[16], b':');
}

#[test]
fn logged_line_starts_with_timestamp() {
    let sink = RawLogger::new(0u8, Level::Trace);
    let rec = LogRecord {
        level: Level::Error,
        module_name: Some("m".to_string()),
        message: "boom".to_string(),
    };
    let line = sink.log(&rec).unwrap();
    assert!(line.ends_with(" ERROR [m] boom\n"));
    assert_eq!(line.len(), 19 + " ERROR [m] boom\n".len());
    assert!(!line.contains('%'));
}
