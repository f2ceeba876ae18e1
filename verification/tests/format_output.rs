use spanlog::event::Event;
use spanlog::format::{console_format, file_format};
use spanlog::severity::Severity;
use spanlog::span::SpanStack;
use spanlog::time::Timestamp;

fn ts() -> Timestamp {
    Timestamp {
        year: 2024,
        month: 3,
        day: 7,
        hour: 8,
        minute: 5,
        second: 9,
        milli: 12,
        offset_seconds: 3600,
    }
}

const STAMP: &str = "2024-03-07 08:05:09.012+01:00";

#[test]
fn file_record_of_info_event_without_spans() {
    let event = Event::new(
        Severity::Info,
        ts(),
        77,
        "app".to_string(),
        10,
        "Start main process...".to_string(),
        Vec::new(),
        &SpanStack::new(),
    );
    let out = file_format(&event);
    let header = format!("[INFO ] 77 {} app(10)\n", STAMP);
    assert!(out.starts_with(&header));
    assert_eq!(out, format!("[INFO ] 77 {} app(10)\n Start main process...\n", STAMP));
}

#[test]
fn console_block_of_info_event_without_spans() {
    let event = Event::new(
        Severity::Info,
        ts(),
        77,
        "app".to_string(),
        10,
        "Start main process...".to_string(),
        Vec::new(),
        &SpanStack::new(),
    );
    let out = console_format(&event);
    let expected = format!(
        "\u{1b}[38;5;10mINFO \u{1b}[0m \u{1b}[38;5;8m{}\u{1b}[0m \u{1b}[38;5;8m77\u{1b}[0m \u{1b}[38;5;8mapp(10)\u{1b}[0m\n\nStart main process...\n\n",
        STAMP
    );
    assert_eq!(out, expected);
}

#[test]
fn error_event_inside_two_spans() {
    let mut stack = SpanStack::new();
    stack.enter("outer".to_string());
    stack.enter("inner".to_string());
    let event = Event::new(
        Severity::Error,
        ts(),
        5,
        "app".to_string(),
        42,
        "failure".to_string(),
        Vec::new(),
        &stack,
    );
    let out = file_format(&event);
    assert_eq!(
        out,
        format!("[ERROR] 5 {} app(42)\n... outer -> inner failure\n", STAMP)
    );
}

#[test]
fn both_formatters_share_the_span_chain() {
    let mut stack = SpanStack::new();
    stack.enter("outer".to_string());
    stack.enter("inner".to_string());
    let event = Event::new(
        Severity::Warn,
        ts(),
        5,
        "app".to_string(),
        42,
        "careful".to_string(),
        Vec::new(),
        &stack,
    );
    let chain = stack.render();
    let console = console_format(&event);
    let file = file_format(&event);
    let console_line = console.lines().nth(1).unwrap();
    let file_line_start = file.lines().nth(1).unwrap();
    assert_eq!(console_line, chain);
    assert!(file_line_start.starts_with(&chain));
    assert_eq!(&console_line[..chain.len()], &file_line_start[..chain.len()]);
}

#[test]
fn structured_fields_follow_the_message() {
    let fields = vec![
        ("user".to_string(), "alice".to_string()),
        ("code".to_string(), "7".to_string()),
    ];
    let event = Event::new(
        Severity::Debug,
        ts(),
        1,
        "db".to_string(),
        3,
        "lookup".to_string(),
        fields,
        &SpanStack::new(),
    );
    assert_eq!(event.render_fields(), "lookup user=alice code=7");
    let out = file_format(&event);
    assert_eq!(out, format!("[DEBUG] 1 {} db(3)\n lookup user=alice code=7\n", STAMP));
}

#[test]
fn empty_span_stack_is_valid_in_both_formatters() {
    let event = Event::new(
        Severity::Trace,
        ts(),
        0,
        "t".to_string(),
        0,
        "".to_string(),
        Vec::new(),
        &SpanStack::new(),
    );
    let console = console_format(&event);
    let file = file_format(&event);
    assert!(!console.is_empty());
    assert!(!file.is_empty());
    assert!(console.ends_with("\n\n"));
    assert!(file.ends_with("\n"));
}

#[test]
fn capture_fills_clock_and_thread() {
    let event = Event::capture(
        Severity::Info,
        "app".to_string(),
        10,
        "hello".to_string(),
        Vec::new(),
        &SpanStack::new(),
    );
    assert_eq!(event.severity(), Severity::Info);
    assert_eq!(event.target(), "app");
    assert_eq!(event.line(), 10);
    assert_eq!(event.message(), "hello");
    let t = event.timestamp();
    assert!(1 <= t.month && t.month <= 12);
    assert!(1 <= t.day && t.day <= 31);
}

#[test]
fn accessors_return_what_was_constructed() {
    let mut stack = SpanStack::new();
    stack.enter("outer".to_string());
    let fields = vec![("k".to_string(), "v".to_string())];
    let event = Event::new(
        Severity::Warn,
        ts(),
        33,
        "net".to_string(),
        8,
        "msg".to_string(),
        fields.clone(),
        &stack,
    );
    assert_eq!(event.severity(), Severity::Warn);
    assert_eq!(event.timestamp(), ts());
    assert_eq!(event.thread(), 33);
    assert_eq!(event.target(), "net");
    assert_eq!(event.line(), 8);
    assert_eq!(event.message(), "msg");
    assert_eq!(event.fields(), &fields);
    assert_eq!(event.spans().render(), "... outer");
}
