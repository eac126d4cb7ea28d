use glide_rs::dispatch::{failure_from_body, failure_from_json};
use glide_rs::json::Json;
use glide_rs::lang::chat::{ChatMessage, ChatRequest, ChatResponse, Role};
use glide_rs::types::{ErrorKind, ErrorResponse};
use glide_rs::Error;

const SAMPLE: &str = r#"{
  "cached": false,
  "created_at": 1711019813,
  "id": "resp-1",
  "model_id": "openai",
  "model_name": "gpt-3.5-turbo",
  "model_response": {
    "message": {"content": "Hello! How can I help you today?", "role": "assistant"},
    "metadata": {"system_fingerprint": "fp_1"},
    "token_count": {"prompt_tokens": 9, "response_tokens": 9, "total_tokens": 18}
  },
  "provider_id": "openai",
  "router_id": "myrouter"
}"#;

#[test]
fn chat_round_trip() {
    let request = ChatRequest::new(ChatMessage::new("Hello!"));
    assert_eq!(request.to_json(), r#"{"message":{"content":"Hello!","role":null}}"#);
    let response = ChatResponse::decode(SAMPLE).unwrap();
    assert_eq!(response.content(), Some("Hello! How can I help you today?"));
    assert_eq!(response.cached, Some(false));
    assert_eq!(response.created_at, Some(1711019813));
    assert_eq!(response.id.as_deref(), Some("resp-1"));
    assert_eq!(response.model_id.as_deref(), Some("openai"));
    assert_eq!(response.model_name.as_deref(), Some("gpt-3.5-turbo"));
    assert_eq!(response.provider_id.as_deref(), Some("openai"));
    assert_eq!(response.router_id.as_deref(), Some("myrouter"));
    let model = response.model_response.unwrap();
    assert_eq!(model.message.role, Some(Role::Assistant));
    assert!(model.message.name.is_none());
    assert_eq!(
        model.metadata,
        Some(vec![("system_fingerprint".to_string(), "fp_1".to_string())])
    );
    assert_eq!(model.token_count.prompt_tokens, 9);
    assert_eq!(model.token_count.response_tokens, 9);
    assert_eq!(model.token_count.total_tokens, 18);
}

#[test]
fn missing_and_null_members_decode_as_absent() {
    let r = ChatResponse::decode(r#"{"id": null, "model_response": null}"#).unwrap();
    assert!(r.cached.is_none());
    assert!(r.created_at.is_none());
    assert!(r.id.is_none());
    assert!(r.model_response.is_none());
    assert!(r.router_id.is_none());
    assert_eq!(r.content(), None);
}

#[test]
fn empty_object_decodes() {
    assert!(ChatResponse::decode("{}").is_ok());
}

#[test]
fn wrong_member_type_is_a_decode_error() {
    for body in [
        r#"{"cached": "no"}"#,
        r#"{"created_at": 1.5}"#,
        r#"{"created_at": 3000000000}"#,
        r#"{"id": 7}"#,
        r#"{"model_response": {"message": {"content": "x"}}}"#,
        r#"{"model_response": {"message": {"content": "x", "role": "robot"}, "token_count": {"prompt_tokens": 1, "response_tokens": 1, "total_tokens": 2}}}"#,
        r#"{"model_response": {"message": {"content": "x"}, "metadata": {"a": 1}, "token_count": {"prompt_tokens": 1, "response_tokens": 1, "total_tokens": 2}}}"#,
        r#"[1, 2]"#,
        "null",
    ] {
        assert!(matches!(ChatResponse::decode(body), Err(Error::Decode(_))), "{body}");
    }
}

#[test]
fn non_json_body_is_a_decode_error() {
    assert!(matches!(ChatResponse::decode("<html>"), Err(Error::Decode(_))));
}

#[test]
fn extra_members_are_ignored() {
    let r = ChatResponse::decode(r#"{"router_id": "r", "latency": 12.5, "extra": [1]}"#).unwrap();
    assert_eq!(r.router_id.as_deref(), Some("r"));
}

#[test]
fn member_lookup() {
    let j = Json::parse(r#"{"a": 1, "b": "two", "c": {"d": true}}"#).unwrap();
    assert!(matches!(j.get("a"), Some(Json::Number(n)) if n == "1"));
    assert!(matches!(j.get("b"), Some(Json::Str(s)) if s == "two"));
    assert!(matches!(j.get("c").and_then(|c| c.get("d")), Some(Json::Bool(true))));
    assert!(j.get("z").is_none());
    assert!(Json::parse("[1]").unwrap().get("a").is_none());
}

#[test]
fn numbers_keep_their_text() {
    let j = Json::parse(r#"[9223372036854775807, 18446744073709551615, 0.5]"#).unwrap();
    match j {
        Json::Array(items) => {
            assert!(matches!(&items[0], Json::Number(n) if n == "9223372036854775807"));
            assert!(matches!(&items[1], Json::Number(n) if n == "18446744073709551615"));
            assert!(matches!(&items[2], Json::Number(n) if n == "0.5"));
        }
        other => panic!("unexpected {other:?}"),
    }
}

#[test]
fn error_body_decodes() {
    let e = ErrorResponse::decode(r#"{"name": "model_unavailable", "message": "down"}"#).unwrap();
    assert_eq!(e.name, "model_unavailable");
    assert_eq!(e.message, "down");
    assert_eq!(e.status_code, 0);
    assert_eq!(e.kind(), ErrorKind::ModelUnavailable);
}

#[test]
fn error_body_without_message_is_a_decode_error() {
    assert!(matches!(ErrorResponse::decode(r#"{"name": "x"}"#), Err(Error::Decode(_))));
}

#[test]
fn failure_from_a_well_formed_body() {
    match failure_from_body(404, r#"{"name": "router_not_found", "message": "no router myrouter"}"#) {
        Error::Api(e) => {
            assert_eq!(e.status_code, 404);
            assert_eq!(e.kind(), ErrorKind::RouterNotFound);
            assert_eq!(e.message, "no router myrouter");
        }
        other => panic!("unexpected {other:?}"),
    }
}

#[test]
fn failure_with_an_unknown_name_is_unrecognized() {
    match failure_from_body(502, r#"{"name": "gateway_on_fire", "message": "hot"}"#) {
        Error::Api(e) => {
            assert_eq!(e.status_code, 502);
            assert_eq!(e.kind(), ErrorKind::Unrecognized);
        }
        other => panic!("unexpected {other:?}"),
    }
}

#[test]
fn failure_from_a_malformed_body_is_a_decode_error() {
    assert!(matches!(failure_from_body(500, "Internal Server Error"), Error::Decode(_)));
    assert!(matches!(failure_from_body(400, r#"{"message": "no name"}"#), Error::Decode(_)));
    let j = Json::parse(r#"{"name": 5, "message": "m"}"#).unwrap();
    assert!(matches!(failure_from_json(422, &j), Error::Decode(_)));
}

#[test]
fn integer_members_are_read_from_their_text() {
    let r = ChatResponse::decode(r#"{"created_at": -2147483648}"#).unwrap();
    assert_eq!(r.created_at, Some(i32::MIN));
    let r = ChatResponse::decode(r#"{"created_at": 2147483647}"#).unwrap();
    assert_eq!(r.created_at, Some(i32::MAX));
    for body in [
        r#"{"created_at": 2147483648}"#,
        r#"{"created_at": -2147483649}"#,
        r#"{"created_at": 1e3}"#,
        r#"{"created_at": -0.0}"#,
        r#"{"created_at": 99999999999999999999999}"#,
    ] {
        assert!(matches!(ChatResponse::decode(body), Err(Error::Decode(_))), "{body}");
    }
}

#[test]
fn control_characters_are_escaped() {
    let r = ChatRequest::new(ChatMessage::new("a\u{1}b\u{8}\u{c}\r\u{1f}"));
    assert_eq!(
        r.to_json(),
        r#"{"message":{"content":"a\u0001b\b\f\r\u001f","role":null}}"#
    );
}
