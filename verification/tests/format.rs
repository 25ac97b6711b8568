use gcplog::layer::{EventData, GcpLayer};
use gcplog::severity::Severity;
use gcplog::tracker::ScopeTracker;

fn field(name: &str, value: &str) -> (String, String) {
    (name.to_string(), value.to_string())
}

fn plain_event(severity: Severity, message: &str) -> EventData {
    EventData {
        severity,
        fields: vec![field("message", message)],
        file: None,
        line: None,
        target: "app".to_string(),
    }
}

const TIME: &str = "2024-01-02T03:04:05.678Z";

#[test]
fn test_gcp_log_format() {
    let layer = GcpLayer::new("test-project-123".to_string(), Severity::Info);
    let mut tracker = ScopeTracker::new();

    let started = layer
        .format_event_at(&tracker, &vec![], &plain_event(Severity::Info, "Application started"), TIME)
        .unwrap();
    assert_eq!(
        started,
        "{\"severity\":\"INFO\",\"message\":\"Application started\",\"time\":\"2024-01-02T03:04:05.678Z\"}"
    );

    tracker.on_scope_created(1, &vec![field("trace_id", "abc123")]);
    let chain = vec![1u64];

    let processing = layer
        .format_event_at(&tracker, &chain, &plain_event(Severity::Info, "Processing request"), TIME)
        .unwrap();
    assert_eq!(
        processing,
        "{\"severity\":\"INFO\",\"message\":\"Processing request\",\"time\":\"2024-01-02T03:04:05.678Z\",\"logging.googleapis.com/trace\":\"projects/test-project-123/traces/abc123\"}"
    );

    let warned = layer
        .format_event_at(&tracker, &chain, &plain_event(Severity::Warn, "Potential issue detected"), TIME)
        .unwrap();
    assert_eq!(
        warned,
        "{\"severity\":\"WARN\",\"message\":\"Potential issue detected\",\"time\":\"2024-01-02T03:04:05.678Z\",\"logging.googleapis.com/trace\":\"projects/test-project-123/traces/abc123\"}"
    );
}

#[test]
fn no_trace_reference_without_trace_carrying_scope() {
    let layer = GcpLayer::new("test-project".to_string(), Severity::Trace);
    let mut tracker = ScopeTracker::new();
    // A scope without a trace_id attribute does not make the chain trace-carrying.
    tracker.on_scope_created(7, &vec![field("user", "u-1")]);

    let line = layer
        .format_event_at(&tracker, &vec![7u64], &plain_event(Severity::Info, "hello"), TIME)
        .unwrap();
    assert!(!line.contains("logging.googleapis.com/trace"));
    assert_eq!(
        line,
        "{\"severity\":\"INFO\",\"message\":\"hello\",\"time\":\"2024-01-02T03:04:05.678Z\"}"
    );
}

#[test]
fn single_scope_trace_reference_is_exact() {
    let layer = GcpLayer::new("test-project".to_string(), Severity::Trace);
    let mut tracker = ScopeTracker::new();
    tracker.on_scope_created(1, &vec![field("trace_id", "abc123")]);

    let line = layer
        .format_event_at(&tracker, &vec![1u64], &plain_event(Severity::Info, "m"), TIME)
        .unwrap();
    assert!(line.contains(
        "\"logging.googleapis.com/trace\":\"projects/test-project/traces/abc123\""
    ));
}

#[test]
fn nested_scopes_innermost_trace_wins() {
    let layer = GcpLayer::new("p".to_string(), Severity::Trace);
    let mut tracker = ScopeTracker::new();
    tracker.on_scope_created(1, &vec![field("trace_id", "outer")]);
    tracker.on_scope_created(2, &vec![field("trace_id", "inner")]);

    let inside_inner = layer
        .format_event_at(&tracker, &vec![1u64, 2u64], &plain_event(Severity::Info, "m"), TIME)
        .unwrap();
    assert!(inside_inner.contains("\"projects/p/traces/inner\""));

    let inside_outer = layer
        .format_event_at(&tracker, &vec![1u64], &plain_event(Severity::Info, "m"), TIME)
        .unwrap();
    assert!(inside_outer.contains("\"projects/p/traces/outer\""));
}

#[test]
fn intermediate_scope_without_attachment_is_skipped() {
    let layer = GcpLayer::new("p".to_string(), Severity::Trace);
    let mut tracker = ScopeTracker::new();
    tracker.on_scope_created(1, &vec![field("trace_id", "outer")]);
    tracker.on_scope_created(2, &vec![field("name", "middle")]);

    let line = layer
        .format_event_at(&tracker, &vec![1u64, 2u64], &plain_event(Severity::Info, "m"), TIME)
        .unwrap();
    assert!(line.contains("\"projects/p/traces/outer\""));
}

#[test]
fn below_minimum_severity_no_record() {
    let layer = GcpLayer::new("p".to_string(), Severity::Info);
    let tracker = ScopeTracker::new();
    let chain: Vec<u64> = vec![];

    assert!(layer.format_event_at(&tracker, &chain, &plain_event(Severity::Debug, "m"), TIME).is_none());
    assert!(layer.format_event_at(&tracker, &chain, &plain_event(Severity::Trace, "m"), TIME).is_none());
    assert!(layer.on_event(&tracker, &chain, &plain_event(Severity::Debug, "m")).is_none());
    assert!(layer.format_event_at(&tracker, &chain, &plain_event(Severity::Info, "m"), TIME).is_some());
    assert!(layer.format_event_at(&tracker, &chain, &plain_event(Severity::Error, "m"), TIME).is_some());
}

fn time_field_of(line: &str) -> String {
    let start = line.find("\"time\":\"").expect("time field present") + "\"time\":\"".len();
    let rest = &line[start..];
    let end = rest.find('"').expect("time field closed");
    rest[..end].to_string()
}

#[test]
fn time_field_is_rfc3339_millis_utc_and_monotonic() {
    let layer = GcpLayer::new("p".to_string(), Severity::Trace);
    let tracker = ScopeTracker::new();
    let chain: Vec<u64> = vec![];

    let first = layer.on_event(&tracker, &chain, &plain_event(Severity::Info, "a")).unwrap();
    let second = layer.on_event(&tracker, &chain, &plain_event(Severity::Info, "b")).unwrap();
    let t1 = time_field_of(&first);
    let t2 = time_field_of(&second);

    for t in [&t1, &t2] {
        let b = t.as_bytes();
        assert_eq!(b.len(), 24, "time {} should be 24 bytes", t);
        for (i, c) in b.iter().enumerate() {
            match i {
                4 | 7 => assert_eq!(*c, b'-'),
                10 => assert_eq!(*c, b'T'),
                13 | 16 => assert_eq!(*c, b':'),
                19 => assert_eq!(*c, b'.'),
                23 => assert_eq!(*c, b'Z'),
                _ => assert!(c.is_ascii_digit(), "time {} has non-digit at {}", t, i),
            }
        }
    }
    // Sequential events on one thread never step backwards.
    assert!(t1 <= t2, "time went backwards: {} then {}", t1, t2);
}

#[test]
fn missing_message_field_yields_empty_message() {
    let layer = GcpLayer::new("p".to_string(), Severity::Trace);
    let tracker = ScopeTracker::new();
    let event = EventData {
        severity: Severity::Info,
        fields: vec![field("request_id", "r-1")],
        file: None,
        line: None,
        target: "app".to_string(),
    };
    let line = layer.format_event_at(&tracker, &vec![], &event, TIME).unwrap();
    assert!(line.contains("\"message\":\"\""));
    assert_eq!(
        line,
        "{\"severity\":\"INFO\",\"message\":\"\",\"time\":\"2024-01-02T03:04:05.678Z\"}"
    );
}

#[test]
fn independent_chains_do_not_cross_contaminate() {
    let layer = GcpLayer::new("p".to_string(), Severity::Trace);
    let mut tracker = ScopeTracker::new();
    tracker.on_scope_created(1, &vec![field("trace_id", "left")]);
    tracker.on_scope_created(2, &vec![field("trace_id", "right")]);

    let left = layer
        .format_event_at(&tracker, &vec![1u64], &plain_event(Severity::Info, "m"), TIME)
        .unwrap();
    let right = layer
        .format_event_at(&tracker, &vec![2u64], &plain_event(Severity::Info, "m"), TIME)
        .unwrap();
    assert!(left.contains("\"projects/p/traces/left\"") && !left.contains("right"));
    assert!(right.contains("\"projects/p/traces/right\"") && !right.contains("left"));
}

#[test]
fn message_is_json_escaped() {
    let layer = GcpLayer::new("p".to_string(), Severity::Trace);
    let tracker = ScopeTracker::new();
    let line = layer
        .format_event_at(
            &tracker,
            &vec![],
            &plain_event(Severity::Info, "say \"hi\"\nplease"),
            TIME,
        )
        .unwrap();
    assert!(line.contains("\"message\":\"say \\\"hi\\\"\\nplease\""));
    // The record stays a single line even for a message with a newline.
    assert!(!line.contains('\n'));
}

#[test]
fn source_location_rendered_when_file_known() {
    let layer = GcpLayer::new("p".to_string(), Severity::Trace);
    let tracker = ScopeTracker::new();
    let event = EventData {
        severity: Severity::Error,
        fields: vec![field("message", "boom")],
        file: Some("src/server.rs".to_string()),
        line: Some(42),
        target: "myapp::server".to_string(),
    };
    let line = layer.format_event_at(&tracker, &vec![], &event, TIME).unwrap();
    assert_eq!(
        line,
        "{\"severity\":\"ERROR\",\"message\":\"boom\",\"time\":\"2024-01-02T03:04:05.678Z\",\"logging.googleapis.com/sourceLocation\":{\"file\":\"src/server.rs\",\"line\":\"42\",\"function\":\"myapp::server\"}}"
    );
}

#[test]
fn source_location_omitted_without_file() {
    let layer = GcpLayer::new("p".to_string(), Severity::Trace);
    let tracker = ScopeTracker::new();
    let line = layer
        .format_event_at(&tracker, &vec![], &plain_event(Severity::Info, "m"), TIME)
        .unwrap();
    assert!(!line.contains("sourceLocation"));
}

#[test]
fn missing_line_number_renders_zero() {
    let layer = GcpLayer::new("p".to_string(), Severity::Trace);
    let tracker = ScopeTracker::new();
    let event = EventData {
        severity: Severity::Info,
        fields: vec![field("message", "m")],
        file: Some("lib.rs".to_string()),
        line: None,
        target: "t".to_string(),
    };
    let line = layer.format_event_at(&tracker, &vec![], &event, TIME).unwrap();
    assert!(line.contains("\"line\":\"0\""));
}
