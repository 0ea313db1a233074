use serde_json::Value;
use service_info::api::home::{home, home_body};
use service_info::metadata::ServiceInfo;
use service_info::response::{Response, JSON_MEDIA_TYPE, STATUS_NOT_FOUND, STATUS_OK};

fn object_of(name: &str, version: &str, repository: &str) -> Value {
    let mut members = serde_json::Map::new();
    members.insert(String::from("name"), Value::String(String::from(name)));
    members.insert(String::from("version"), Value::String(String::from(version)));
    members.insert(String::from("repository"), Value::String(String::from(repository)));
    Value::Object(members)
}

fn parsed(body: &str) -> Value {
    match serde_json::from_str::<Value>(body) {
        Ok(value) => value,
        Err(error) => panic!("the body is no JSON: {}", error),
    }
}

#[test]
fn home_with_unset_inputs() {
    let response = home(&ServiceInfo::resolve(None, None, None));
    assert_eq!(response.status, 200);
    assert_eq!(response.body, "{\"name\":\"NULL\",\"version\":\"NULL\",\"repository\":\"NULL\"}");
}

#[test]
fn home_with_set_inputs() {
    let info = ServiceInfo::resolve(Some("svc"), Some("1.2.3"), Some("https://example.com/repo"));
    let response = home(&info);
    assert_eq!(response.status, 200);
    assert_eq!(
        response.body,
        "{\"name\":\"svc\",\"version\":\"1.2.3\",\"repository\":\"https://example.com/repo\"}"
    );
}

#[test]
fn home_with_empty_inputs() {
    let response = home(&ServiceInfo::resolve(Some(""), Some(""), Some("")));
    assert_eq!(response.body, "{\"name\":\"NULL\",\"version\":\"NULL\",\"repository\":\"NULL\"}");
}

#[test]
fn home_with_some_inputs_unset() {
    let response = home(&ServiceInfo::resolve(Some("svc"), None, Some("")));
    assert_eq!(response.body, "{\"name\":\"svc\",\"version\":\"NULL\",\"repository\":\"NULL\"}");
}

#[test]
fn home_answers_json() {
    let response = home(&ServiceInfo::resolve(None, None, None));
    assert_eq!(response.status, STATUS_OK);
    assert_eq!(response.content_type.as_deref(), Some("application/json"));
    assert_eq!(JSON_MEDIA_TYPE, "application/json");
    assert!(response.is_success());
}

#[test]
fn home_body_is_an_object_with_three_members() {
    let info = ServiceInfo::resolve(Some("svc"), Some("1.2.3"), Some("https://example.com/repo"));
    let value = parsed(&home(&info).body);
    match &value {
        Value::Object(members) => {
            assert_eq!(members.len(), 3);
            assert!(members.contains_key("name"));
            assert!(members.contains_key("version"));
            assert!(members.contains_key("repository"));
        }
        _ => panic!("the body is no object"),
    }
    assert_eq!(value, object_of("svc", "1.2.3", "https://example.com/repo"));
}

#[test]
fn home_escapes_quotes_and_backslashes() {
    let info = ServiceInfo::resolve(Some("a\"b"), Some("c\\d"), Some("e/f"));
    let response = home(&info);
    assert_eq!(
        response.body,
        "{\"name\":\"a\\\"b\",\"version\":\"c\\\\d\",\"repository\":\"e/f\"}"
    );
    assert_eq!(parsed(&response.body), object_of("a\"b", "c\\d", "e/f"));
}

#[test]
fn home_escapes_control_characters() {
    let info = ServiceInfo::resolve(Some("a\nb\tc\rd"), Some("\u{8}\u{c}"), Some("\u{0}\u{1f}"));
    let response = home(&info);
    assert_eq!(
        response.body,
        "{\"name\":\"a\\nb\\tc\\rd\",\"version\":\"\\b\\f\",\"repository\":\"\\u0000\\u001f\"}"
    );
    assert_eq!(parsed(&response.body), object_of("a\nb\tc\rd", "\u{8}\u{c}", "\u{0}\u{1f}"));
}

#[test]
fn home_keeps_other_characters_as_they_are() {
    let info = ServiceInfo::resolve(Some("caf\u{e9} \u{7f}"), Some("\u{4e16}\u{754c}"), Some("\u{1f600}"));
    let response = home(&info);
    assert_eq!(
        response.body,
        "{\"name\":\"caf\u{e9} \u{7f}\",\"version\":\"\u{4e16}\u{754c}\",\"repository\":\"\u{1f600}\"}"
    );
    assert_eq!(
        parsed(&response.body),
        object_of("caf\u{e9} \u{7f}", "\u{4e16}\u{754c}", "\u{1f600}")
    );
}

#[test]
fn home_reads_back_every_character_below_space() {
    let mut code: u32 = 0;
    while code < 0x20 {
        let c = match char::from_u32(code) {
            Some(c) => c,
            None => panic!("no character"),
        };
        let text = format!("x{}y", c);
        let response = home(&ServiceInfo::resolve(Some(&text), Some(&text), Some(&text)));
        assert_eq!(parsed(&response.body), object_of(&text, &text, &text));
        code += 1;
    }
}

#[test]
fn home_does_not_trim_values() {
    let info = ServiceInfo::resolve(Some(" svc "), Some("\t1.2.3"), Some("repo\n"));
    assert_eq!(parsed(&home(&info).body), object_of(" svc ", "\t1.2.3", "repo\n"));
}

#[test]
fn home_is_stable() {
    let info = ServiceInfo::resolve(Some("svc"), None, Some("https://example.com/repo"));
    let first = home(&info);
    let second = home(&info);
    assert_eq!(first, second);
    assert_eq!(first.body.as_bytes(), second.body.as_bytes());
}

#[test]
fn home_body_frames_three_literals() {
    assert_eq!(
        home_body("\"svc\"", "\"1.2.3\"", "\"https://example.com/repo\""),
        "{\"name\":\"svc\",\"version\":\"1.2.3\",\"repository\":\"https://example.com/repo\"}"
    );
}

#[test]
fn home_body_keeps_the_literals_as_they_are() {
    assert_eq!(
        home_body("\"a\\\"b\"", "\"\"", "\"\\u0001\""),
        "{\"name\":\"a\\\"b\",\"version\":\"\",\"repository\":\"\\u0001\"}"
    );
    assert_eq!(home_body("", "", ""), "{\"name\":,\"version\":,\"repository\":}");
}

#[test]
fn json_response_has_status_ok() {
    let response = Response::json(String::from("{}"));
    assert_eq!(response.status, 200);
    assert_eq!(response.content_type.as_deref(), Some("application/json"));
    assert_eq!(response.body, "{}");
    assert!(response.is_success());
}

#[test]
fn not_found_response_is_empty() {
    let response = Response::not_found();
    assert_eq!(response.status, 404);
    assert_eq!(STATUS_NOT_FOUND, 404);
    assert_eq!(response.content_type, None);
    assert_eq!(response.body, "");
    assert!(!response.is_success());
}

#[test]
fn success_is_from_200_to_299() {
    let with = |status: u16| Response { status, content_type: None, body: String::new() };
    assert!(!with(199).is_success());
    assert!(with(200).is_success());
    assert!(with(299).is_success());
    assert!(!with(300).is_success());
    assert!(!with(500).is_success());
    assert!(!with(0).is_success());
}
