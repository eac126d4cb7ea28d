use glide_rs::lang::stream::{Channel, Frame, Inbound, Phase, CLOSE_GOING_AWAY};
use glide_rs::json::Json;
use glide_rs::Error;

fn text(s: &str) -> Inbound {
    Inbound::Frame(Frame::Text(s.to_string()))
}

#[test]
fn text_frame_decodes() {
    let mut c = Channel::new();
    let item = c.receive(text(r#"{"content":"hi"}"#)).unwrap().unwrap();
    assert!(matches!(item.get("content"), Some(Json::Str(s)) if s == "hi"));
    assert_eq!(c.phase, Phase::Open);
}

#[test]
fn binary_frame_decodes() {
    let mut c = Channel::new();
    let item = c.receive(Inbound::Frame(Frame::Binary(b"[1,2]".to_vec()))).unwrap().unwrap();
    match item {
        Json::Array(items) => assert!(matches!(&items[1], Json::Number(n) if n == "2")),
        other => panic!("unexpected {other:?}"),
    }
}

#[test]
fn non_json_frame_is_one_decode_error() {
    let mut c = Channel::new();
    match c.receive(text("not json")) {
        Some(Err(Error::Decode(_))) => {}
        other => panic!("unexpected {other:?}"),
    }
    assert!(c.reads_socket());
    let next = c.receive(text(r#"{"a":1}"#)).unwrap().unwrap();
    assert!(matches!(next.get("a"), Some(Json::Number(n)) if n == "1"));
}

#[test]
fn control_frames_are_decode_errors() {
    let mut c = Channel::new();
    for f in [
        Frame::Ping(vec![1]),
        Frame::Pong(vec![]),
        Frame::Close { code: 1000, reason: String::new() },
    ] {
        match c.receive(Inbound::Frame(f)) {
            Some(Err(Error::Decode(m))) => assert_eq!(m, "neither text nor binary"),
            other => panic!("unexpected {other:?}"),
        }
    }
    assert_eq!(c.phase, Phase::Open);
}

#[test]
fn transport_failure_is_an_item() {
    let mut c = Channel::new();
    match c.receive(Inbound::Failed("reset".to_string())) {
        Some(Err(Error::Ws(m))) => assert_eq!(m, "reset"),
        other => panic!("unexpected {other:?}"),
    }
    assert!(c.reads_socket());
}

#[test]
fn end_is_final() {
    let mut c = Channel::new();
    assert!(c.receive(Inbound::Ended).is_none());
    assert_eq!(c.phase, Phase::Ended);
    assert!(!c.reads_socket());
    assert!(c.receive(text("1")).is_none());
}

#[test]
fn close_signals_once_and_releases_once() {
    let mut c = Channel::new();
    assert_eq!(CLOSE_GOING_AWAY, 1001);
    assert!(c.begin_close());
    assert!(!c.begin_close());
    assert_eq!(c.phase, Phase::Closing);
    assert!(c.receive(text("1")).is_none());
    assert!(matches!(c.finish_close(Ok(())), Some(Ok(()))));
    assert_eq!(c.phase, Phase::Closed);
    assert!(c.finish_close(Ok(())).is_none());
    assert!(!c.begin_close());
    assert!(c.receive(text("1")).is_none());
}

#[test]
fn failed_close_is_reported() {
    let mut c = Channel::new();
    assert!(c.begin_close());
    match c.finish_close(Err("broken pipe".to_string())) {
        Some(Err(Error::Ws(m))) => assert_eq!(m, "broken pipe"),
        other => panic!("unexpected {other:?}"),
    }
    assert_eq!(c.phase, Phase::Closed);
}

#[test]
fn finish_without_close_releases_nothing() {
    let mut c = Channel::new();
    assert!(c.finish_close(Ok(())).is_none());
    assert_eq!(c.phase, Phase::Open);
}

#[test]
fn outbound_is_a_text_frame() {
    let c = Channel::new();
    let v: serde_json::Value = serde_json::from_str(r#"{"message":{"content":"Hello!"}}"#).unwrap();
    match c.outbound(&v) {
        Ok(Frame::Text(t)) => assert_eq!(t, r#"{"message":{"content":"Hello!"}}"#),
        other => panic!("unexpected {other:?}"),
    }
}

#[test]
fn outbound_after_close_is_refused() {
    let mut c = Channel::new();
    c.begin_close();
    assert!(matches!(c.outbound(&serde_json::Value::Null), Err(Error::Ws(_))));
}

#[test]
fn frames_are_answered_in_order() {
    let mut c = Channel::new();
    let mut seen = Vec::new();
    for t in ["1", "oops", "\"two\"", "[3]"] {
        seen.push(c.receive(text(t)).unwrap());
    }
    assert!(matches!(&seen[0], Ok(Json::Number(n)) if n == "1"));
    assert!(matches!(&seen[1], Err(Error::Decode(_))));
    assert!(matches!(&seen[2], Ok(Json::Str(s)) if s == "two"));
    assert!(matches!(&seen[3], Ok(Json::Array(a)) if a.len() == 1));
}
