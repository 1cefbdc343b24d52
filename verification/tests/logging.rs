//! Tests of the structured log formatting: severity remapping, the fixed
//! JSON key order, escaping, and the sentinels for a missing location.

use orchestra_core::logfmt::{format_record, LogRecord, RemapTable};
use orchestra_core::timefmt::Timestamp;
use orchestra_core::Severity;

fn ts() -> Timestamp {
    Timestamp { year: 2024, month: 3, day: 9, hour: 7, minute: 5, second: 3, micros: 42 }
}

fn sports_table() -> RemapTable {
    let mut table = RemapTable::new();
    table.add_rule("JacksSportsZoneApi".to_owned(), Severity::Info, "API".to_owned());
    table.add_rule("JacksSportsZoneApi".to_owned(), Severity::Debug, "Update".to_owned());
    table.add_rule("JacksSportsZoneApi".to_owned(), Severity::Error, "Update_Error".to_owned());
    table
}

fn record(component: &str, severity: Severity, message: &str) -> LogRecord {
    LogRecord {
        timestamp: ts(),
        severity,
        component: component.to_owned(),
        file: Some("src/main.rs".to_owned()),
        line: Some(42),
        message: message.to_owned(),
    }
}

#[test]
fn timestamp_renders_iso_8601_utc() {
    let t = ts();
    assert_eq!(t.render(), "2024-03-09T07:05:03.000042Z");
}

#[test]
fn timestamp_pads_every_field() {
    let t = Timestamp { year: 1, month: 12, day: 31, hour: 23, minute: 59, second: 59, micros: 999999 };
    assert_eq!(t.render(), "0001-12-31T23:59:59.999999Z");
}

#[test]
fn mapped_pair_uses_display_label() {
    let table = sports_table();
    let line = format_record(&table, &record("JacksSportsZoneApi", Severity::Info, "pull"));
    let v: serde_json::Value = serde_json::from_str(&line).unwrap();
    assert_eq!(v.get("level").unwrap().as_str().unwrap(), "API");
    let line = format_record(&table, &record("JacksSportsZoneApi", Severity::Debug, "pull"));
    let v: serde_json::Value = serde_json::from_str(&line).unwrap();
    assert_eq!(v.get("level").unwrap().as_str().unwrap(), "Update");
    let line = format_record(&table, &record("JacksSportsZoneApi", Severity::Error, "pull"));
    let v: serde_json::Value = serde_json::from_str(&line).unwrap();
    assert_eq!(v.get("level").unwrap().as_str().unwrap(), "Update_Error");
}

#[test]
fn unmapped_pair_uses_canonical_name() {
    let table = sports_table();
    let line = format_record(&table, &record("JacksSportsZoneApi", Severity::Warn, "x"));
    let v: serde_json::Value = serde_json::from_str(&line).unwrap();
    assert_eq!(v.get("level").unwrap().as_str().unwrap(), "WARN");
    let line = format_record(&table, &record("other", Severity::Info, "x"));
    let v: serde_json::Value = serde_json::from_str(&line).unwrap();
    assert_eq!(v.get("level").unwrap().as_str().unwrap(), "INFO");
}

#[test]
fn emitted_line_is_exactly_the_fixed_shape() {
    let table = RemapTable::new();
    let line = format_record(&table, &record("web", Severity::Info, "hello"));
    assert_eq!(
        line,
        "{\"timestamp\":\"2024-03-09T07:05:03.000042Z\",\"level\":\"INFO\",\"component\":\"web\",\"file\":\"src/main.rs\",\"line\":42,\"message\":\"hello\"}"
    );
}

#[test]
fn emitted_line_parses_with_fixed_keys_in_order() {
    let table = sports_table();
    let line = format_record(&table, &record("web", Severity::Info, "hello \"world\""));
    let v: serde_json::Value = serde_json::from_str(&line).unwrap();
    let obj = v.as_object().unwrap();
    assert_eq!(obj.len(), 6);
    for key in ["timestamp", "level", "component", "file", "line", "message"] {
        assert!(obj.contains_key(key));
    }
    let positions: Vec<usize> = ["\"timestamp\"", "\"level\"", "\"component\"", "\"file\"", "\"line\"", "\"message\""]
        .iter()
        .map(|k| line.find(k).unwrap())
        .collect();
    for w in positions.windows(2) {
        assert!(w[0] < w[1]);
    }
}

#[test]
fn message_escaping_round_trips() {
    let table = RemapTable::new();
    let message = "a \"quoted\" \\ backslash\nnewline\ttab";
    let line = format_record(&table, &record("web", Severity::Error, message));
    let v: serde_json::Value = serde_json::from_str(&line).unwrap();
    assert_eq!(v.get("message").unwrap().as_str().unwrap(), message);
    assert!(!line.contains('\n'));
}

#[test]
fn missing_location_renders_sentinels() {
    let table = RemapTable::new();
    let rec = LogRecord {
        timestamp: ts(),
        severity: Severity::Trace,
        component: "web".to_owned(),
        file: None,
        line: None,
        message: "m".to_owned(),
    };
    let line = format_record(&table, &rec);
    let v: serde_json::Value = serde_json::from_str(&line).unwrap();
    assert_eq!(v.get("file").unwrap().as_str().unwrap(), "<unnamed>");
    assert_eq!(v.get("line").unwrap().as_u64().unwrap(), 0);
    assert_eq!(v.get("level").unwrap().as_str().unwrap(), "TRACE");
}

#[test]
fn display_label_prefers_first_matching_rule() {
    let mut table = RemapTable::new();
    table.add_rule("c".to_owned(), Severity::Info, "first".to_owned());
    table.add_rule("c".to_owned(), Severity::Info, "second".to_owned());
    assert_eq!(table.display_label(&"c".to_owned(), Severity::Info), "first");
    assert_eq!(table.display_label(&"d".to_owned(), Severity::Info), "INFO");
}

#[test]
fn severity_order_is_error_down_to_trace() {
    assert!(Severity::Error.at_least(Severity::Warn));
    assert!(Severity::Warn.at_least(Severity::Info));
    assert!(Severity::Info.at_least(Severity::Debug));
    assert!(Severity::Debug.at_least(Severity::Trace));
    assert!(!Severity::Trace.at_least(Severity::Debug));
    assert_eq!(Severity::Warn.canonical_name(), "WARN");
}
