use webpush_accounts::anyhow_response_error::{anyhow_error, AnyhowError, ErrorReport};
use webpush_accounts::handlers::test::{handler_test, InputData};
use webpush_accounts::json::{member, object1, object2, object3, string_member, string_value};
use webpush_accounts::reply::{Reply, ReplyBody};

fn text_of(reply: &Reply) -> &str {
    match &reply.body {
        ReplyBody::Text(t) => t.as_str(),
        other => panic!("expected a text body, got {:?}", other),
    }
}

#[test]
fn test_route_echoes_input_as_json_message() {
    let reply = handler_test(&InputData { test: "hello".to_string() });
    assert_eq!(reply.status, 200);
    assert!(reply.user_id_cookie.is_none());
    assert_eq!(text_of(&reply), "{\"message\":\"Test: hello\"}");
}

#[test]
fn test_route_escapes_quotes_and_newlines() {
    let reply = handler_test(&InputData { test: "a\"b\nc\\".to_string() });
    assert_eq!(text_of(&reply), "{\"message\":\"Test: a\\\"b\\nc\\\\\"}");
}

#[test]
fn test_route_with_empty_input() {
    let reply = handler_test(&InputData { test: String::new() });
    assert_eq!(text_of(&reply), "{\"message\":\"Test: \"}");
}

#[test]
fn json_string_value_is_quoted_and_escaped() {
    assert_eq!(string_value("plain"), "\"plain\"");
    assert_eq!(string_value("tab\there"), "\"tab\\there\"");
    assert_eq!(string_value(""), "\"\"");
    assert_eq!(string_value("\u{1}\u{1f}\u{8}\u{c}\r"), "\"\\u0001\\u001f\\b\\f\\r\"");
    assert_eq!(string_value("é\u{7f}/"), "\"é\u{7f}/\"");
}

#[test]
fn json_members_and_objects() {
    assert_eq!(member("k", "1"), "\"k\":1");
    assert_eq!(string_member("k", "v"), "\"k\":\"v\"");
    assert_eq!(object1("a", "{}"), "{\"a\":{}}");
    assert_eq!(object2("a", "\"x\"", "b", "{}"), "{\"a\":\"x\",\"b\":{}}");
    assert_eq!(object3("a", "1", "b", "2", "c", "3"), "{\"a\":1,\"b\":2,\"c\":3}");
}

#[test]
fn error_response_is_500_with_message() {
    let error = anyhow_error(ErrorReport::msg("Failed to get connection pool.".to_string()));
    let reply = error.error_response();
    assert_eq!(reply.status, 500);
    assert!(reply.user_id_cookie.is_none());
    assert_eq!(text_of(&reply), "Failed to get connection pool.");
    assert_eq!(error.message(), "Failed to get connection pool.");
}

#[test]
fn anyhow_error_keeps_the_report() {
    let report = ErrorReport {
        message: "top".to_string(),
        report: "top\n\nCaused by:\n    inner".to_string(),
        database_constraint: Some("accounts_email_key".to_string()),
    };
    let AnyhowError::Anyhow(e) = anyhow_error(report);
    assert_eq!(e.message, "top");
    assert_eq!(e.report, "top\n\nCaused by:\n    inner");
    assert_eq!(e.database_constraint.as_deref(), Some("accounts_email_key"));
}

#[test]
fn message_error_reports_its_message() {
    let e = ErrorReport::msg("boom".to_string());
    assert_eq!(e.message, "boom");
    assert!(reports(&e.report, "boom"));
    assert!(e.database_constraint.is_none());
}

#[test]
fn protocol_error_shows_sqlx_prefix() {
    let e = ErrorReport::protocol("Password hashing failed: x".to_string());
    assert_eq!(e.message, "encountered unexpected or invalid data: Password hashing failed: x");
    assert!(reports(&e.report, &e.message));
    assert!(e.database_constraint.is_none());
}

#[test]
fn reply_constructors() {
    let r = Reply::empty(401);
    assert_eq!(r.status, 401);
    assert!(matches!(r.body, ReplyBody::Empty));
    assert!(!r.is_success());
    let r = Reply::json(200, "{}".to_string());
    assert!(matches!(&r.body, ReplyBody::Json(j) if j == "{}"));
    assert!(r.is_success());
    let r = Reply::ok_with_user_cookie("u1".to_string());
    assert_eq!(r.status, 200);
    assert_eq!(r.user_id_cookie.as_deref(), Some("u1"));
    assert!(Reply::empty(299).is_success());
    assert!(!Reply::empty(300).is_success());
    assert!(!Reply::empty(199).is_success());
}

fn reports(report: &str, text: &str) -> bool {
    report == text || report.starts_with(&format!("{text}\n\nStack backtrace:"))
}

#[test]
fn context_error_reports_its_cause() {
    let e = ErrorReport::context("outer".to_string(), "line one\nline two".to_string());
    assert_eq!(e.message, "outer");
    assert!(reports(&e.report, "outer\n\nCaused by:\n    line one\n    line two"));
    assert!(e.database_constraint.is_none());
}
