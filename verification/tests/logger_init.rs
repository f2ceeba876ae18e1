use spanlog::event::Event;
use spanlog::format::{console_format, file_format};
use spanlog::logger::{log_file_path, InitError, Logger};
use spanlog::severity::Severity;
use spanlog::span::SpanStack;
use spanlog::time::Timestamp;

fn ts() -> Timestamp {
    Timestamp {
        year: 2024,
        month: 3,
        day: 7,
        hour: 8,
        minute: 5,
        second: 9,
        milli: 12,
        offset_seconds: 3600,
    }
}

#[test]
fn initialize_succeeds_once_then_fails() {
    let mut logger = Logger::new(16);
    assert_eq!(logger.initialize(), Ok(()));
    assert_eq!(logger.initialize(), Err(InitError::AlreadyInitialized));
    assert_eq!(logger.initialize(), Err(InitError::AlreadyInitialized));
}

#[test]
fn emit_fans_out_to_both_destinations() {
    let mut logger = Logger::new(16);
    logger.initialize().unwrap();
    let mut stack = SpanStack::new();
    stack.enter("outer".to_string());
    let event = Event::new(
        Severity::Info,
        ts(),
        9,
        "app".to_string(),
        10,
        "hello".to_string(),
        Vec::new(),
        &stack,
    );
    let console = logger.emit(&event);
    assert_eq!(console, console_format(&event));
    let pending = logger.drain_pending();
    assert_eq!(pending, vec![file_format(&event)]);
}

#[test]
fn a_full_logger_queue_keeps_older_records() {
    let mut logger = Logger::new(1);
    logger.initialize().unwrap();
    let stack = SpanStack::new();
    let first = Event::new(
        Severity::Info,
        ts(),
        1,
        "app".to_string(),
        1,
        "one".to_string(),
        Vec::new(),
        &stack,
    );
    let second = Event::new(
        Severity::Info,
        ts(),
        1,
        "app".to_string(),
        2,
        "two".to_string(),
        Vec::new(),
        &stack,
    );
    logger.emit(&first);
    logger.emit(&second);
    let pending = logger.drain_pending();
    assert_eq!(pending, vec![file_format(&first)]);
}

#[test]
fn write_outcomes_flow_through_the_logger() {
    let mut logger = Logger::new(4);
    logger.initialize().unwrap();
    let (outcome, reported) = logger.record_write_outcome(false, true);
    assert_eq!(outcome, spanlog::writer::RecordOutcome::WrittenAfterRetry);
    assert!(reported);
    let (outcome, reported) = logger.record_write_outcome(true, true);
    assert_eq!(outcome, spanlog::writer::RecordOutcome::Written);
    assert!(!reported);
}

#[test]
fn log_file_path_embeds_the_start_stamp() {
    assert_eq!(
        log_file_path("spanlog", &ts()),
        ".logs/spanlog-20240307-080509012.log"
    );
}
