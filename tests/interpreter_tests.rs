use e2b::interpreter::{apply_interpreter_message, empty_execution};
use e2b::json::JsonValue;
use e2b::models::LogLevel;
use e2b::sandbox::{envd_url, is_code_interpreter, jupyter_url, level_from_lowercase, parse_log_level};

fn obj(members: Vec<(&str, JsonValue)>) -> JsonValue {
    JsonValue::Object(members.into_iter().map(|(k, v)| (k.to_string(), v)).collect())
}

fn s(t: &str) -> JsonValue {
    JsonValue::Str(t.to_string())
}

#[test]
fn interpreter_stream_messages_accumulate() {
    let mut e = empty_execution();
    apply_interpreter_message(&mut e, &obj(vec![("type", s("stdout")), ("text", s("a"))]));
    apply_interpreter_message(&mut e, &obj(vec![("type", s("stdout")), ("line", s("b"))]));
    apply_interpreter_message(&mut e, &obj(vec![("type", s("stderr")), ("data", s("c"))]));
    apply_interpreter_message(&mut e, &obj(vec![("type", s("stdout"))]));
    assert_eq!(e.stdout, "ab\n");
    assert_eq!(e.stderr, "c\n");
    assert!(e.results.is_empty());
}

#[test]
fn interpreter_results_and_errors() {
    let mut e = empty_execution();
    apply_interpreter_message(
        &mut e,
        &obj(vec![
            ("type", s("result")),
            ("text", s("42")),
            ("data", obj(vec![("text/html", s("<b>42</b>")), ("n", JsonValue::Integer(1))])),
            ("is_main_result", JsonValue::Bool(false)),
        ]),
    );
    assert_eq!(e.results.len(), 1);
    assert_eq!(e.results[0].result_type, "result");
    assert_eq!(e.results[0].data.get("text/plain"), Some(&"42".to_string()));
    assert_eq!(e.results[0].data.get("text/html"), Some(&"<b>42</b>".to_string()));
    assert_eq!(e.results[0].data.len(), 2);
    assert!(!e.is_main_result);
    apply_interpreter_message(&mut e, &obj(vec![("type", s("display_data")), ("data", obj(vec![]))]));
    assert_eq!(e.results.len(), 1);
    apply_interpreter_message(&mut e, &obj(vec![("type", s("display_data")), ("text", s("x"))]));
    assert_eq!(e.results.len(), 2);
    assert!(e.is_main_result);
    apply_interpreter_message(&mut e, &obj(vec![("type", s("error")), ("value", s("boom"))]));
    let err = e.error.clone().unwrap();
    assert_eq!(err.name, "Unknown");
    assert_eq!(err.value, "boom");
    assert_eq!(err.traceback, "");
    apply_interpreter_message(&mut e, &obj(vec![("type", s("status"))]));
    assert_eq!(e.results.len(), 2);
}

#[test]
fn interpreter_untyped_message_adds_output() {
    let mut e = empty_execution();
    apply_interpreter_message(&mut e, &obj(vec![("stdout", s("out")), ("stderr", s("err"))]));
    assert_eq!(e.stdout, "out");
    assert_eq!(e.stderr, "err");
}

#[test]
fn sandbox_service_urls() {
    assert_eq!(envd_url("abc", "e2b.dev"), "https://49983-abc.e2b.dev");
    assert_eq!(jupyter_url("abc", "e2b.dev"), "https://49999-abc.e2b.dev");
}

#[test]
fn code_interpreter_detection() {
    assert!(is_code_interpreter("code-interpreter-v1", None));
    assert!(is_code_interpreter("xyz", Some("my-code-interpreter")));
    assert!(!is_code_interpreter("nodejs", Some("base")));
    assert!(!is_code_interpreter("nodejs", None));
}

#[test]
fn log_levels_ignore_case() {
    assert!(matches!(parse_log_level("DEBUG"), LogLevel::Debug));
    assert!(matches!(parse_log_level("Warning"), LogLevel::Warn));
    assert!(matches!(parse_log_level("warn"), LogLevel::Warn));
    assert!(matches!(parse_log_level("ERROR"), LogLevel::Error));
    assert!(matches!(parse_log_level("trace"), LogLevel::Info));
    assert!(matches!(level_from_lowercase("Debug"), LogLevel::Info));
}

use e2b::sandbox::{line_log_record, log_record_from};

#[test]
fn structured_log_records() {
    let entry = obj(vec![
        ("level", s("WARN")),
        ("message", s("disk low")),
        ("fields", obj(vec![("logger", s("monitor"))])),
    ]);
    let rec = log_record_from(&entry).unwrap();
    assert!(matches!(rec.level, LogLevel::Warn));
    assert_eq!(rec.message, "disk low");
    assert_eq!(rec.source, "monitor");
    let bare = log_record_from(&obj(vec![])).unwrap();
    assert!(matches!(bare.level, LogLevel::Info));
    assert_eq!(bare.message, "");
    assert_eq!(bare.source, "unknown");
    assert!(log_record_from(&s("text")).is_err());
}

#[test]
fn line_log_records() {
    let parsed = obj(vec![("level", s("error")), ("message", s("bad")), ("fields", obj(vec![("service", s("envd"))]))]);
    let rec = line_log_record("{...}", Some(&parsed));
    assert!(matches!(rec.level, LogLevel::Error));
    assert_eq!(rec.source, "envd");
    let plain = line_log_record("hello", None);
    assert!(matches!(plain.level, LogLevel::Info));
    assert_eq!(plain.message, "hello");
    assert_eq!(plain.source, "log");
    let not_entry = line_log_record("42", Some(&JsonValue::Integer(42)));
    assert_eq!(not_entry.message, "42");
}
