use rustboot::observability::{
    Counter, InMemoryCounter, InMemoryLogger, Level, TimedSpan, TraceContext, TracingLevel,
};

fn looks_like_uuid_v4(s: &str) -> bool {
    let c: Vec<char> = s.chars().collect();
    c.len() == 36
        && c.iter().enumerate().all(|(i, ch)| {
            if i == 8 || i == 13 || i == 18 || i == 23 {
                *ch == '-'
            } else {
                ch.is_ascii_digit() || ('a'..='f').contains(ch)
            }
        })
        && c[14] == '4'
        && "89ab".contains(c[19])
}

#[test]
fn test_level_ordering() {
    assert!(Level::Error > Level::Warn);
    assert!(Level::Warn > Level::Info);
    assert!(Level::Info > Level::Debug);
    assert!(Level::Debug > Level::Trace);
}

#[test]
fn test_counter() {
    let mut counter = InMemoryCounter::new();
    assert_eq!(counter.get(), 0);
    counter.inc();
    assert_eq!(counter.get(), 1);
    counter.add(5);
    assert_eq!(counter.get(), 6);
}

#[test]
fn counter_wraps_like_atomic_add() {
    let mut counter = InMemoryCounter::new();
    counter.add(u64::MAX);
    counter.inc();
    assert_eq!(counter.get(), 0);
}

#[test]
fn test_in_memory_logger() {
    let mut logger = InMemoryLogger::new();
    logger.log(
        Level::Info,
        "Test message",
        vec![("key".to_string(), "String(\"value\")".to_string())],
    );
    logger.log(Level::Error, "Error occurred", vec![]);
    let entries = logger.entries();
    assert_eq!(entries.len(), 2);
    assert_eq!(entries[0].0, Level::Info);
    assert_eq!(entries[1].0, Level::Error);
}

#[test]
fn logger_keeps_messages_and_clears() {
    let mut logger = InMemoryLogger::new();
    logger.log(Level::Warn, "w", vec![]);
    assert_eq!(logger.entries(), vec![(Level::Warn, "w".to_string())]);
    logger.clear();
    assert!(logger.entries().is_empty());
}

#[test]
fn test_timed_span_creation() {
    let span = TimedSpan::new("test_operation");
    let duration = span.finish();
    assert!(duration.as_nanos() > 0);
}

#[test]
fn test_timed_span_with_fields() {
    let span = TimedSpan::new("test_operation").field("user_id", "123").field("action", "create");
    assert_eq!(span.name(), "test_operation");
    assert_eq!(
        span.fields(),
        &vec![
            ("user_id".to_string(), "123".to_string()),
            ("action".to_string(), "create".to_string())
        ]
    );
    let duration = span.finish();
    assert!(duration.as_nanos() > 0);
}

#[test]
fn test_trace_context() {
    let root = TraceContext::new();
    assert!(root.parent_span_id.is_none());
    let child = root.child();
    assert_eq!(child.trace_id, root.trace_id);
    assert_ne!(child.span_id, root.span_id);
    assert_eq!(child.parent_span_id, Some(root.span_id.clone()));
}

#[test]
fn trace_ids_are_uuid_v4_text() {
    let root = TraceContext::default();
    assert!(looks_like_uuid_v4(&root.trace_id));
    assert!(looks_like_uuid_v4(&root.span_id));
    assert!(looks_like_uuid_v4(&root.child().span_id));
}

#[test]
fn test_tracing_reexports() {
    let _level = TracingLevel::INFO;
}
