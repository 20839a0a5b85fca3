use ccommon_rs::{Level, LogBackend, LogRecord, LoggerStatus, RegistrationState, SetupStep};

/// A byte sink that keeps what it is given, standing for the external logger.
struct Recorder {
    writes: Vec<String>,
    flushes: usize,
}

impl Recorder {
    fn new() -> Recorder {
        Recorder { writes: Vec::new(), flushes: 0 }
    }
}

fn set_up(backend: &mut LogBackend<usize>) {
    assert_eq!(backend.setup_step(), SetupStep::Register);
    assert_eq!(backend.finish_setup(true), LoggerStatus::OK);
}

fn record(level: Level, message: &str) -> LogRecord {
    LogRecord {
        level,
        module_name: Some("app::module".to_string()),
        message: message.to_string(),
    }
}

#[test]
fn setup_registers_once_and_is_idempotent() {
    let mut backend: LogBackend<usize> = LogBackend::new();
    assert!(!backend.is_setup());
    assert_eq!(backend.get_state(), RegistrationState::Uninitialized);
    assert_eq!(backend.setup_step(), SetupStep::Register);
    assert_eq!(backend.get_state(), RegistrationState::Initializing);
    assert!(!backend.is_setup());
    assert_eq!(backend.finish_setup(true), LoggerStatus::OK);
    assert!(backend.is_setup());
    assert_eq!(backend.setup_step(), SetupStep::Done(LoggerStatus::OK));
    assert_eq!(backend.setup_step(), SetupStep::Done(LoggerStatus::OK));
    assert_eq!(backend.get_state(), RegistrationState::Initialized);
}

#[test]
fn racing_setup_callers_wait_then_see_final_status() {
    let mut backend: LogBackend<usize> = LogBackend::new();
    let mut registrations = 0;
    let mut answers = Vec::new();
    for _ in 0..4 {
        match backend.setup_step() {
            SetupStep::Register => registrations += 1,
            other => answers.push(other),
        }
    }
    assert_eq!(registrations, 1);
    assert!(answers.iter().all(|a| *a == SetupStep::Wait));
    assert_eq!(backend.finish_setup(true), LoggerStatus::OK);
    for _ in 0..3 {
        assert_eq!(backend.setup_step(), SetupStep::Done(LoggerStatus::OK));
    }
}

#[test]
fn failed_registration_is_final() {
    let mut backend: LogBackend<usize> = LogBackend::new();
    assert_eq!(backend.setup_step(), SetupStep::Register);
    assert_eq!(backend.finish_setup(false), LoggerStatus::RegistrationFailure);
    assert_eq!(backend.get_state(), RegistrationState::Failed);
    assert_eq!(backend.setup_step(), SetupStep::Done(LoggerStatus::RegistrationFailure));
    assert_eq!(backend.setup_step(), SetupStep::Done(LoggerStatus::RegistrationFailure));
    assert!(!backend.is_setup());
    assert_eq!(backend.attach(7, Level::Info), LoggerStatus::LoggerNotSetupError);
}

#[test]
fn attach_before_setup_is_refused() {
    let mut backend: LogBackend<usize> = LogBackend::new();
    assert_eq!(backend.attach(1, Level::Debug), LoggerStatus::LoggerNotSetupError);
    assert!(backend.current().is_none());
    assert_eq!(backend.detach(), None);
    assert_eq!(backend.setup_step(), SetupStep::Register);
    assert_eq!(backend.attach(1, Level::Debug), LoggerStatus::LoggerNotSetupError);
    assert!(backend.current().is_none());
}

#[test]
fn second_attach_keeps_first_sink() {
    let mut backend: LogBackend<usize> = LogBackend::new();
    set_up(&mut backend);
    assert_eq!(backend.attach(10, Level::Info), LoggerStatus::OK);
    assert_eq!(backend.attach(20, Level::Info), LoggerStatus::LoggerAlreadySetError);
    let cur = backend.current().unwrap();
    assert_eq!(*cur.inner(), 10);
    assert_eq!(cur.level, Level::Info);
    assert_eq!(backend.detach(), Some(10));
}

#[test]
fn detach_returns_handle_then_nothing() {
    let mut backend: LogBackend<usize> = LogBackend::new();
    set_up(&mut backend);
    assert_eq!(backend.attach(42, Level::Warn), LoggerStatus::OK);
    assert_eq!(backend.detach(), Some(42));
    assert_eq!(backend.detach(), None);
    assert_eq!(backend.flush(), None);
    assert_eq!(backend.attach(43, Level::Trace), LoggerStatus::OK);
    assert_eq!(backend.detach(), Some(43));
}

#[test]
fn log_direct_respects_sink_level() {
    let mut backend: LogBackend<usize> = LogBackend::new();
    set_up(&mut backend);
    assert_eq!(backend.attach(3, Level::Warn), LoggerStatus::OK);
    assert_eq!(backend.log_direct(b"quiet", Level::Info), Ok(None));
    assert_eq!(backend.log_direct(b"quiet", Level::Trace), Ok(None));
    let line = backend.log_direct(b"loud", Level::Warn).unwrap().unwrap();
    assert!(line.contains("loud"));
    assert!(line.ends_with(" WARN  [ccommon_rs::backend] loud\n"));
    let line = backend.log_direct(b"louder", Level::Error).unwrap().unwrap();
    assert!(line.ends_with(" ERROR [ccommon_rs::backend] louder\n"));
}

#[test]
fn log_direct_rejects_invalid_utf8() {
    let mut backend: LogBackend<usize> = LogBackend::new();
    set_up(&mut backend);
    assert_eq!(backend.attach(3, Level::Trace), LoggerStatus::OK);
    assert_eq!(backend.log_direct(&[0x66, 0xff, 0x6f], Level::Error), Err(LoggerStatus::InvalidUTF8));
    assert_eq!(backend.log_direct(&[0xc3], Level::Error), Err(LoggerStatus::InvalidUTF8));
    let line = backend.log_direct("caf\u{e9}".as_bytes(), Level::Error).unwrap().unwrap();
    assert!(line.contains("caf\u{e9}"));
}

#[test]
fn log_direct_without_sink_or_setup_writes_nothing() {
    let mut backend: LogBackend<usize> = LogBackend::new();
    assert_eq!(backend.log_direct(b"early", Level::Error), Ok(None));
    set_up(&mut backend);
    assert_eq!(backend.log_direct(b"no sink", Level::Error), Ok(None));
    assert_eq!(backend.log(&record(Level::Error, "no sink")), None);
}

#[test]
fn max_level_filters_direct_logging() {
    let mut backend: LogBackend<usize> = LogBackend::new();
    set_up(&mut backend);
    assert_eq!(backend.attach(5, Level::Trace), LoggerStatus::OK);
    backend.set_max_level(Level::Warn);
    assert_eq!(backend.log_direct(b"info", Level::Info), Ok(None));
    assert!(backend.log_direct(b"warn", Level::Warn).unwrap().is_some());
    backend.set_max_level(Level::Trace);
    assert!(backend.log_direct(b"info", Level::Info).unwrap().is_some());
}

#[test]
fn scenario_log_flush_detach() {
    let mut sinks = vec![Recorder::new()];
    let sink_a: usize = 0;
    let mut backend: LogBackend<usize> = LogBackend::new();
    set_up(&mut backend);
    assert_eq!(backend.attach(sink_a, Level::Debug), LoggerStatus::OK);
    let rec = record(Level::Error, "hello");
    if let Some(line) = backend.log(&rec) {
        let h = *backend.current().unwrap().inner();
        sinks[h].writes.push(line);
    }
    if let Some(h) = backend.flush() {
        sinks[*h].flushes += 1;
    }
    assert_eq!(sinks[0].writes.len(), 1);
    assert!(sinks[0].writes[0].contains("hello"));
    assert!(sinks[0].writes[0].ends_with(" ERROR [app::module] hello\n"));
    assert_eq!(sinks[0].flushes, 1);
    assert_eq!(backend.detach(), Some(sink_a));
}

#[test]
fn scenario_two_sinks() {
    let mut backend: LogBackend<&str> = LogBackend::new();
    assert_eq!(backend.setup_step(), SetupStep::Register);
    assert_eq!(backend.finish_setup(true), LoggerStatus::OK);
    assert_eq!(backend.attach("sink_A", Level::Info), LoggerStatus::OK);
    assert_eq!(backend.attach("sink_B", Level::Info), LoggerStatus::LoggerAlreadySetError);
    assert_eq!(backend.detach(), Some("sink_A"));
}

#[test]
fn facade_logger_forwards_to_current_sink() {
    let logger = ccommon_rs::Logger::new();
    assert!(logger.enabled(Level::Trace));
    let mut backend: LogBackend<usize> = LogBackend::new();
    assert_eq!(logger.log(&backend, &record(Level::Error, "dropped")), None);
    set_up(&mut backend);
    assert_eq!(backend.attach(9, Level::Info), LoggerStatus::OK);
    assert_eq!(logger.log(&backend, &record(Level::Debug, "filtered")), None);
    let line = logger.log(&backend, &record(Level::Info, "kept")).unwrap();
    assert!(line.ends_with(" INFO  [app::module] kept\n"));
    assert_eq!(logger.flush(&backend), Some(&9));
}
