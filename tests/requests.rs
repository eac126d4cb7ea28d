use glide_rs::config::{decode_health, Config};
use glide_rs::Error;
use glide_rs::lang::chat::{ChatMessage, ChatRequest};
use glide_rs::request::Method;

fn config(base: &str, key: Option<&str>) -> Config {
    Config::new(base, "Glide/0.1.0 (Rust; Ver 1.70.0)", key).expect("a valid base")
}

#[test]
fn invalid_base_is_refused() {
    assert!(Config::new("not a url", "ua", None).is_none());
    assert!(Config::new("", "ua", None).is_none());
}

#[test]
fn base_is_normalized() {
    let c = config("HTTP://Example.COM:80", None);
    assert_eq!(c.base_url, "http://example.com/");
}

#[test]
fn join_keeps_the_base_path() {
    let c = config("http://host/v1/", None);
    let q = c.create(Method::Get, "health/").unwrap();
    assert_eq!(q.url, "http://host/v1/health/");
}

#[test]
fn join_keeps_a_deep_base_path() {
    let c = config("https://gw.example.net/api/glide/", None);
    let q = c.create(Method::Get, "v1/language/").unwrap();
    assert_eq!(q.url, "https://gw.example.net/api/glide/v1/language/");
}

#[test]
fn join_of_empty_path_is_the_base() {
    let c = config("http://host/v1/", None);
    assert_eq!(c.create(Method::Get, "").unwrap().url, "http://host/v1/");
}

#[test]
fn rooted_path_replaces_the_base_path() {
    let c = config("http://host/v1/", None);
    assert_eq!(c.create(Method::Get, "/health/").unwrap().url, "http://host/health/");
}

#[test]
fn unresolvable_path_gives_none() {
    let c = config("http://host/v1/", None);
    assert!(c.create(Method::Get, "//[::1").is_none());
}

#[test]
fn credential_and_header_are_attached() {
    let c = config("http://127.0.0.1:9099/", Some("SECRET-REDACTED"));
    let q = c.health_request().unwrap();
    assert_eq!(q.method, Method::Get);
    assert_eq!(q.url, "http://127.0.0.1:9099/v1/health/");
    assert_eq!(q.user_agent, "Glide/0.1.0 (Rust; Ver 1.70.0)");
    assert_eq!(q.bearer.as_deref(), Some("SECRET-REDACTED"));
    assert!(q.body.is_none());
    assert!(!q.upgrade);
}

#[test]
fn no_credential_sends_unauthenticated() {
    let c = config("http://127.0.0.1:9099/", None);
    let q = c.list_request().unwrap();
    assert_eq!(q.url, "http://127.0.0.1:9099/v1/language/");
    assert!(q.bearer.is_none());
}

#[test]
fn chat_request_posts_the_body() {
    let c = config("http://127.0.0.1:9099/", None);
    let q = c.chat_request("myrouter", &ChatRequest::new(ChatMessage::new("Hello!"))).unwrap();
    assert_eq!(q.method, Method::Post);
    assert_eq!(q.url, "http://127.0.0.1:9099/v1/language/myrouter/chat");
    assert_eq!(q.body.as_deref(), Some(r#"{"message":{"content":"Hello!","role":null}}"#));
    assert!(!q.upgrade);
}

#[test]
fn stream_request_asks_for_upgrade() {
    let c = config("http://host/gw/", Some("k"));
    let q = c.stream_request("myrouter").unwrap();
    assert_eq!(q.method, Method::Get);
    assert_eq!(q.url, "http://host/gw/v1/language/myrouter/chatStream");
    assert!(q.upgrade);
    assert!(q.body.is_none());
    assert_eq!(q.bearer.as_deref(), Some("k"));
}

#[test]
fn health_reply_decodes() {
    assert_eq!(decode_health(r#"{"healthy": true}"#).unwrap(), true);
    assert_eq!(decode_health(r#"{"healthy": false, "version": "1"}"#).unwrap(), false);
}

#[test]
fn malformed_health_reply_is_a_decode_error() {
    for text in ["", "true", r#"{"healthy": "yes"}"#, r#"{"status": "ok"}"#] {
        assert!(matches!(decode_health(text), Err(Error::Decode(_))), "{text}");
    }
}

#[test]
fn dotted_router_keeps_the_base_path() {
    let c = config("http://host/gw/", None);
    let q = c.chat_request("my.router", &ChatRequest::new("x")).unwrap();
    assert_eq!(q.url, "http://host/gw/v1/language/my.router/chat");
}
