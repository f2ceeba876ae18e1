use spanlog::event::Event;
use spanlog::format::file_format;
use spanlog::severity::Severity;
use spanlog::span::SpanStack;
use spanlog::time::Timestamp;
use spanlog::writer::{RecordOutcome, RecordQueue, WriterState};

fn ts() -> Timestamp {
    Timestamp {
        year: 2024,
        month: 3,
        day: 7,
        hour: 8,
        minute: 5,
        second: 9,
        milli: 12,
        offset_seconds: 3600,
    }
}

#[test]
fn a_full_queue_drops_the_newest_record() {
    let mut q = RecordQueue::new(1);
    assert!(q.enqueue("first".to_string()));
    assert!(!q.enqueue("second".to_string()));
    assert_eq!(q.len(), 1);
    let drained = q.drain();
    assert_eq!(drained, vec!["first".to_string()]);
    assert_eq!(q.len(), 0);
}

#[test]
fn records_come_out_oldest_first() {
    let mut q = RecordQueue::new(8);
    q.enqueue("a".to_string());
    q.enqueue("b".to_string());
    q.enqueue("c".to_string());
    assert_eq!(q.pop_front(), Some("a".to_string()));
    assert_eq!(q.pop_front(), Some("b".to_string()));
    assert_eq!(q.pop_front(), Some("c".to_string()));
    assert_eq!(q.pop_front(), None);
}

#[test]
fn drain_returns_a_thousand_well_formed_records() {
    let mut q = RecordQueue::new(2000);
    for i in 0..1000u32 {
        let event = Event::new(
            Severity::Info,
            ts(),
            7,
            "burst".to_string(),
            i,
            format!("record {}", i),
            Vec::new(),
            &SpanStack::new(),
        );
        assert!(q.enqueue(file_format(&event)));
    }
    let drained = q.drain();
    assert_eq!(drained.len(), 1000);
    for (i, record) in drained.iter().enumerate() {
        assert!(record.starts_with("[INFO ]"));
        assert!(record.ends_with('\n'));
        assert_eq!(record.matches('\n').count(), 2);
        assert!(record.contains(&format!("record {}", i)));
    }
}

#[test]
fn a_failed_write_is_retried_once_and_reported_once() {
    let mut w = WriterState::new();
    let (outcome, reported) = w.process_record(false, true);
    assert_eq!(outcome, RecordOutcome::WrittenAfterRetry);
    assert!(reported);
    assert!(!w.degraded);
    let (outcome, reported) = w.process_record(true, true);
    assert_eq!(outcome, RecordOutcome::Written);
    assert!(!reported);
}

#[test]
fn persistent_failure_degrades_and_quiets_reports() {
    let mut w = WriterState::new();
    let (outcome, reported) = w.process_record(false, false);
    assert_eq!(outcome, RecordOutcome::Dropped);
    assert!(reported);
    assert!(w.degraded);
    let (outcome, reported) = w.process_record(false, false);
    assert_eq!(outcome, RecordOutcome::Dropped);
    assert!(!reported);
}
