use serde_json::Value;
use toggl_api::{
    classify, ApiError, ApiResult, Body, Outcome, ReportsErrorDetail, ReportsErrorJson,
};

/// A payload shape that needs `id`, `start` and `duration`.
#[derive(Debug, PartialEq)]
struct Entry {
    id: i64,
    start: String,
    duration: i64,
}

fn field<'a>(v: &'a Value, key: &str) -> Result<&'a Value, String> {
    v.get(key).ok_or(format!("missing field `{}`", key))
}

fn read_entry(text: &str) -> Result<Entry, String> {
    let v: Value = serde_json::from_str(text).map_err(|e| e.to_string())?;
    let id = field(&v, "id")?.as_i64().ok_or("`id` is not an integer".to_string())?;
    let start = field(&v, "start")?.as_str().ok_or("`start` is not a string".to_string())?;
    let duration =
        field(&v, "duration")?.as_i64().ok_or("`duration` is not an integer".to_string())?;
    Ok(Entry { id, start: start.to_string(), duration })
}

fn read_messages(text: &str) -> Result<Vec<String>, String> {
    serde_json::from_str::<Vec<String>>(text).map_err(|e| e.to_string())
}

fn read_reports_error(text: &str) -> Result<ReportsErrorJson, String> {
    let v: Value = serde_json::from_str(text).map_err(|e| e.to_string())?;
    let e = field(&v, "error")?;
    let message = field(e, "message")?.as_str().ok_or("`message` is not a string".to_string())?;
    let tip = field(e, "tip")?.as_str().ok_or("`tip` is not a string".to_string())?;
    let code = field(e, "code")?.as_i64().ok_or("`code` is not an integer".to_string())?;
    Ok(ReportsErrorJson {
        error: ReportsErrorDetail { message: message.to_string(), tip: tip.to_string(), code },
    })
}

fn response<P, E>(
    status: u16,
    text: &str,
    payload: fn(&str) -> Result<P, String>,
    error: fn(&str) -> Result<E, String>,
) -> Outcome<P, E> {
    Outcome::Response {
        status,
        body: Body::Text { text: text.to_string(), as_payload: payload(text), as_error: error(text) },
    }
}

fn refused_connection() -> reqwest::Error {
    reqwest::blocking::get("http://127.0.0.1:1/").expect_err("nothing listens on port 1")
}

#[test]
fn time_entry_body_is_success() {
    let text = r#"{"id":1,"start":"2024-01-01T00:00:00Z","duration":400}"#;
    let r: ApiResult<Entry, Vec<String>> =
        classify(response(200, text, read_entry, read_messages));
    match r {
        Ok(e) => assert_eq!(
            e,
            Entry { id: 1, start: "2024-01-01T00:00:00Z".to_string(), duration: 400 }
        ),
        other => panic!("expected a success, got {:?}", other),
    }
}

#[test]
fn message_list_at_400_is_service_error() {
    let text = r#"["Missing parameter: start"]"#;
    let r = classify(response(400, text, read_entry, read_messages));
    match r {
        Err(ApiError::Server(s)) => {
            assert_eq!(s.status_code, 400);
            assert_eq!(s.parsed_json, Some(vec!["Missing parameter: start".to_string()]));
        }
        other => panic!("expected a service error, got {:?}", other),
    }
}

#[test]
fn reports_error_at_status_200_is_service_error() {
    let text = r#"{"error":{"message":"bad request","tip":"check params","code":1}}"#;
    let r = classify(response(200, text, read_entry, read_reports_error));
    match r {
        Err(ApiError::Server(s)) => {
            assert_eq!(s.status_code, 200);
            let parsed = s.parsed_json.expect("the error body is parsed");
            assert_eq!(parsed.error.message, "bad request");
            assert_eq!(parsed.error.tip, "check params");
            assert_eq!(parsed.error.code, 1);
        }
        other => panic!("expected a service error, got {:?}", other),
    }
}

#[test]
fn unknown_shape_is_parsing_error() {
    let text = r#"{"unexpected":"shape"}"#;
    let payload_cause = read_entry(text).unwrap_err();
    let error_cause = read_messages(text).unwrap_err();
    let r = classify(response(200, text, read_entry, read_messages));
    match r {
        Err(ApiError::Parsing(p)) => {
            assert_eq!(p.text, text);
            let d = p.err.expect("a diagnostic");
            assert!(d.contains(&payload_cause));
            assert!(d.contains(&error_cause));
            assert!(d.find(&payload_cause).unwrap() < d.rfind(&error_cause).unwrap());
        }
        other => panic!("expected a parsing error, got {:?}", other),
    }
}

#[test]
fn refused_connection_is_transport_error() {
    let outcome: Outcome<Entry, Vec<String>> = Outcome::Transport(refused_connection());
    assert!(matches!(classify(outcome), Err(ApiError::Network(_))));
}

#[test]
fn transport_error_whatever_the_shapes() {
    let outcome: Outcome<Vec<String>, ReportsErrorJson> = Outcome::Transport(refused_connection());
    assert!(matches!(classify(outcome), Err(ApiError::Network(_))));
}

#[test]
fn payload_wins_over_error_shape() {
    // The same text reads as both shapes; the payload is tried first.
    let text = r#"["a","b"]"#;
    let r = classify(response(200, text, read_messages, read_messages));
    match r {
        Ok(v) => assert_eq!(v, vec!["a".to_string(), "b".to_string()]),
        other => panic!("expected a success, got {:?}", other),
    }
}

#[test]
fn payload_wins_at_any_status() {
    let text = r#"{"id":7,"start":"x","duration":-3}"#;
    let r = classify(response(500, text, read_entry, read_messages));
    assert!(matches!(r, Ok(Entry { id: 7, duration: -3, .. })));
}

#[test]
fn invalid_json_is_parsing_error_with_raw_text() {
    let text = "not json at all";
    let r = classify(response(502, text, read_entry, read_messages));
    match r {
        Err(ApiError::Parsing(p)) => {
            assert_eq!(p.text, text);
            let d = p.err.expect("a diagnostic");
            assert!(d.starts_with("Matching the payload shape failed because of "));
            assert!(d.contains(". Matching the error shape failed because of "));
        }
        other => panic!("expected a parsing error, got {:?}", other),
    }
}

#[test]
fn unreadable_body_at_200_is_service_error() {
    let outcome: Outcome<Entry, Vec<String>> =
        Outcome::Response { status: 200, body: Body::Unreadable };
    match classify(outcome) {
        Err(ApiError::Server(s)) => {
            assert_eq!(s.status_code, 200);
            assert!(s.text.is_none());
            assert!(s.parsed_json.is_none());
        }
        other => panic!("expected a service error, got {:?}", other),
    }
}

#[test]
fn unreadable_body_at_error_status_is_service_error() {
    let outcome: Outcome<Entry, Vec<String>> =
        Outcome::Response { status: 403, body: Body::Unreadable };
    match classify(outcome) {
        Err(ApiError::Server(s)) => {
            assert_eq!(s.status_code, 403);
            assert!(s.text.is_none());
            assert!(s.parsed_json.is_none());
        }
        other => panic!("expected a service error, got {:?}", other),
    }
}

#[test]
fn classifying_twice_gives_the_same_result() {
    let text = r#"{"unexpected":"shape"}"#;
    let first = classify(response(200, text, read_entry, read_messages));
    let second = classify(response(200, text, read_entry, read_messages));
    assert_eq!(format!("{:?}", first), format!("{:?}", second));
    let text = r#"["x"]"#;
    let first = classify(response(404, text, read_entry, read_messages));
    let second = classify(response(404, text, read_entry, read_messages));
    assert_eq!(format!("{:?}", first), format!("{:?}", second));
}
