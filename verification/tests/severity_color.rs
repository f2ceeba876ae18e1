use spanlog::color::{color_for, ColorCode};
use spanlog::severity::Severity;

#[test]
fn color_for_covers_all_five_severities() {
    assert_eq!(color_for(Severity::Trace), ColorCode::BrightMagenta);
    assert_eq!(color_for(Severity::Debug), ColorCode::BrightCyan);
    assert_eq!(color_for(Severity::Info), ColorCode::BrightGreen);
    assert_eq!(color_for(Severity::Warn), ColorCode::Yellow);
    assert_eq!(color_for(Severity::Error), ColorCode::Red);
}

#[test]
fn color_for_is_deterministic() {
    for s in [
        Severity::Trace,
        Severity::Debug,
        Severity::Info,
        Severity::Warn,
        Severity::Error,
    ] {
        assert_eq!(color_for(s), color_for(s));
    }
}

#[test]
fn labels_are_five_characters() {
    assert_eq!(Severity::Trace.label(), "TRACE");
    assert_eq!(Severity::Debug.label(), "DEBUG");
    assert_eq!(Severity::Info.label(), "INFO ");
    assert_eq!(Severity::Warn.label(), "WARN ");
    assert_eq!(Severity::Error.label(), "ERROR");
}

#[test]
fn severity_order_is_least_to_most_severe() {
    assert!(Severity::Error.at_least(Severity::Info));
    assert!(Severity::Info.at_least(Severity::Info));
    assert!(!Severity::Trace.at_least(Severity::Debug));
    assert!(Severity::Warn.at_least(Severity::Debug));
}
