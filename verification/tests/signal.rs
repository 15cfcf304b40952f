use lindows::signal::{SignalKind, WSMessage};

#[test]
fn kinds_follow_event_names() {
    assert_eq!(WSMessage::new("offer", "x").kind(), SignalKind::Offer);
    assert_eq!(WSMessage::new("answer", "x").kind(), SignalKind::Answer);
    assert_eq!(WSMessage::new("candidate", "x").kind(), SignalKind::Candidate);
    assert_eq!(WSMessage::new("ping", "").kind(), SignalKind::Ping);
    assert_eq!(WSMessage::new("pong", "").kind(), SignalKind::Pong);
    assert_eq!(WSMessage::new("hello", "").kind(), SignalKind::Unknown);
    assert_eq!(WSMessage::new("Offer", "").kind(), SignalKind::Unknown);
    assert_eq!(WSMessage::new("", "").kind(), SignalKind::Unknown);
}

#[test]
fn frame_has_event_then_payload() {
    let text = WSMessage::new("offer", "v=0").to_json();
    assert_eq!(text, "{\"event\":\"offer\",\"payload\":\"v=0\"}");
}

#[test]
fn frame_escapes_what_json_escapes() {
    let text = WSMessage::new("answer", "a\"b\\c\r\nd").to_json();
    assert_eq!(text, "{\"event\":\"answer\",\"payload\":\"a\\\"b\\\\c\\r\\nd\"}");
}

#[test]
fn pong_has_empty_payload() {
    let pong = WSMessage::pong();
    assert_eq!(pong.event, "pong");
    assert_eq!(pong.payload, "");
    assert_eq!(pong.to_json(), "{\"event\":\"pong\",\"payload\":\"\"}");
}

#[test]
fn frame_reads_back() {
    let sent = WSMessage::candidate("candidate:1 1 udp 1 10.0.0.1 9 typ host");
    let read = WSMessage::from_json(&sent.to_json()).expect("a message");
    assert_eq!(read.event, "candidate");
    assert_eq!(read.payload, "candidate:1 1 udp 1 10.0.0.1 9 typ host");
}

#[test]
fn frame_with_escapes_reads_back() {
    let sent = WSMessage::offer("v=0\r\no=- 1 2 IN IP4 127.0.0.1\r\n");
    let read = WSMessage::from_json(&sent.to_json()).expect("a message");
    assert_eq!(read.event, "offer");
    assert_eq!(read.payload, "v=0\r\no=- 1 2 IN IP4 127.0.0.1\r\n");
}

#[test]
fn members_may_come_in_any_order_and_with_others() {
    let read = WSMessage::from_json("{\"payload\":\"p\",\"extra\":1,\"event\":\"ping\"}")
        .expect("a message");
    assert_eq!(read.event, "ping");
    assert_eq!(read.payload, "p");
}

#[test]
fn frame_without_payload_carries_no_message() {
    assert!(WSMessage::from_json("{\"event\":\"ping\"}").is_none());
}

#[test]
fn frame_without_event_carries_no_message() {
    assert!(WSMessage::from_json("{\"payload\":\"\"}").is_none());
}

#[test]
fn malformed_frame_carries_no_message() {
    assert!(WSMessage::from_json("").is_none());
    assert!(WSMessage::from_json("{\"event\":\"ping\",\"payload\":\"\"").is_none());
    assert!(WSMessage::from_json("[\"ping\",\"\"]").is_none());
    assert!(WSMessage::from_json("{\"event\":1,\"payload\":\"\"}").is_none());
    assert!(WSMessage::from_json("{\"event\":\"ping\",\"payload\":null}").is_none());
}

#[test]
fn members_assemble_only_together() {
    assert!(WSMessage::from_members(None, None).is_none());
    assert!(WSMessage::from_members(Some("ping".to_string()), None).is_none());
    assert!(WSMessage::from_members(None, Some("".to_string())).is_none());
    let m = WSMessage::from_members(Some("ping".to_string()), Some("x".to_string()))
        .expect("a message");
    assert_eq!(m.event, "ping");
    assert_eq!(m.payload, "x");
}
