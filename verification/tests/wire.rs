use pocketbase_sdk::errors::Error;
use pocketbase_sdk::records::{
    interpret_delete_response, list_query_params, record_item_path, record_view_path, records_path,
};
use pocketbase_sdk::wire::{interpret_registration_response, registration_body};

#[test]
fn registration_body_is_exact() {
    let topics = vec!["users".to_string(), "posts/abc".to_string()];
    assert_eq!(
        registration_body("abc123", &topics),
        "{\"clientId\":\"abc123\",\"subscriptions\":[\"users\",\"posts/abc\"]}"
    );
}

#[test]
fn registration_body_with_no_topics() {
    let topics: Vec<String> = Vec::new();
    assert_eq!(registration_body("abc123", &topics), "{\"clientId\":\"abc123\",\"subscriptions\":[]}");
}

#[test]
fn escaping_agrees_with_a_json_serializer() {
    let tricky = "a\"b\\c\nd\te\rf\u{08}g\u{0c}h\u{1f}i\u{0}j unicode: é漢";
    let topics = vec![tricky.to_string()];
    let body = registration_body(tricky, &topics);
    let id_json = serde_json::to_string(&serde_json::Value::String(tricky.to_string())).unwrap();
    let expected = format!(
        "{{\"clientId\":{},\"subscriptions\":[{}]}}",
        id_json, id_json
    );
    assert_eq!(body, expected);
}

#[test]
fn empty_response_body_means_success() {
    assert!(interpret_registration_response("").is_ok());
}

#[test]
fn error_body_is_surfaced_as_a_structured_error() {
    let body = "{\"code\":99,\"message\":\"bad request\",\"data\":{\"field\":\"missing\"}}";
    match interpret_registration_response(body) {
        Err(Error::PocketBaseErrorResponse(resp)) => {
            assert_eq!(resp.code, 99);
            assert_eq!(resp.message, "bad request");
            assert_eq!(resp.data, vec![("field".to_string(), "missing".to_string())]);
        },
        _ => panic!("a structured error body must be surfaced as one"),
    }
}

#[test]
fn unreadable_error_body_is_a_request_failure() {
    match interpret_registration_response("not json at all") {
        Err(Error::RequestFailed(_)) => {},
        _ => panic!("an unreadable body must be a request failure"),
    }
}

#[test]
fn error_code_above_a_byte_is_a_request_failure() {
    let body = "{\"code\":400,\"message\":\"bad request\",\"data\":{}}";
    match interpret_registration_response(body) {
        Err(Error::RequestFailed(_)) => {},
        _ => panic!("a code that does not fit the field must fail the parse"),
    }
}

#[test]
fn delete_response_null_means_success() {
    assert!(interpret_delete_response("null").is_ok());
}

#[test]
fn delete_response_error_body_is_structured() {
    let body = "{\"code\":44,\"message\":\"nope\",\"data\":{}}";
    match interpret_delete_response(body) {
        Err(Error::PocketBaseErrorResponse(resp)) => {
            assert_eq!(resp.code, 44);
            assert_eq!(resp.message, "nope");
            assert!(resp.data.is_empty());
        },
        _ => panic!("a structured error body must be surfaced as one"),
    }
}

#[test]
fn record_paths_are_exact() {
    assert_eq!(records_path("users"), "/api/collections/users/records");
    assert_eq!(record_view_path("users", "abc"), "/api/collections/users/record/abc");
    assert_eq!(record_item_path("users", "abc"), "/api/collections/users/records/abc");
}

#[test]
fn list_query_params_keep_given_arguments_in_order() {
    let params = list_query_params(Some(2), Some(30), None, Some("id>0"), None);
    assert_eq!(
        params,
        vec![
            ("page".to_string(), "2".to_string()),
            ("perPage".to_string(), "30".to_string()),
            ("filter".to_string(), "id>0".to_string()),
        ]
    );
    assert_eq!(list_query_params(None, None, None, None, None), Vec::new());
}

#[test]
fn error_messages_are_readable() {
    assert_eq!(Error::SSEClientNotExist.message(), "SSE Client not created yet");
    assert_eq!(
        Error::Timeout("Overtime wait SSE Id".to_string()).message(),
        "Timeout: Overtime wait SSE Id"
    );
    assert_eq!(Error::NotAuthenticated.message(), "Not authenticated");
}
