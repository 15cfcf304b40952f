use lindows::sdp::{SdpKind, SessionDescription};

const SDP: &str = "v=0\r\no=- 4611731400430051336 2 IN IP4 127.0.0.1\r\ns=-\r\nt=0 0\r\n";

#[test]
fn bare_sdp_in_an_offer_is_an_offer() {
    let d = SessionDescription::from_offer_payload(SDP).expect("a description");
    assert_eq!(d.kind, SdpKind::Offer);
    assert_eq!(d.sdp, SDP);
}

#[test]
fn bare_sdp_in_an_answer_is_an_answer() {
    let d = SessionDescription::from_answer_payload(SDP).expect("a description");
    assert_eq!(d.kind, SdpKind::Answer);
    assert_eq!(d.sdp, SDP);
}

#[test]
fn description_object_is_taken_as_it_is() {
    let object = "{\"type\":\"offer\",\"sdp\":\"v=0\\r\\no=- 4611731400430051336 2 IN IP4 127.0.0.1\\r\\ns=-\\r\\nt=0 0\\r\\n\"}";
    let d = SessionDescription::from_offer_payload(object).expect("a description");
    assert_eq!(d.kind, SdpKind::Offer);
    assert_eq!(d.sdp, SDP);
}

#[test]
fn object_and_bare_sdp_decode_alike() {
    let object = "{\"type\":\"answer\",\"sdp\":\"v=0\\r\\no=- 4611731400430051336 2 IN IP4 127.0.0.1\\r\\ns=-\\r\\nt=0 0\\r\\n\"}";
    let from_object = SessionDescription::from_answer_payload(object).expect("a description");
    let from_bare = SessionDescription::from_answer_payload(SDP).expect("a description");
    assert_eq!(from_object, from_bare);
}

#[test]
fn description_object_keeps_its_own_kind() {
    let object = "{\"type\":\"answer\",\"sdp\":\"x\"}";
    let d = SessionDescription::from_offer_payload(object).expect("a description");
    assert_eq!(d.kind, SdpKind::Answer);
    assert_eq!(d.sdp, "x");
    let object = "{\"type\":\"pranswer\",\"sdp\":\"\"}";
    let d = SessionDescription::from_answer_payload(object).expect("a description");
    assert_eq!(d.kind, SdpKind::Pranswer);
    let object = "{\"type\":\"rollback\",\"sdp\":\"\"}";
    let d = SessionDescription::from_answer_payload(object).expect("a description");
    assert_eq!(d.kind, SdpKind::Rollback);
}

#[test]
fn neither_object_nor_sdp_is_no_description() {
    assert!(SessionDescription::from_offer_payload("").is_none());
    assert!(SessionDescription::from_offer_payload("hello").is_none());
    assert!(SessionDescription::from_answer_payload("{\"type\":\"answer\"}").is_none());
    assert!(SessionDescription::from_answer_payload("{\"sdp\":\"x\"}").is_none());
    assert!(SessionDescription::from_answer_payload("v=1").is_none());
}

#[test]
fn object_reading_comes_first() {
    let object = SessionDescription::new(SdpKind::Answer, "a");
    let bare = SessionDescription::new(SdpKind::Offer, "b");
    assert_eq!(
        SessionDescription::prefer(Some(object.clone()), Some(bare.clone())),
        Some(object.clone())
    );
    assert_eq!(SessionDescription::prefer(Some(object.clone()), None), Some(object));
    assert_eq!(SessionDescription::prefer(None, Some(bare.clone())), Some(bare));
    assert_eq!(SessionDescription::prefer(None, None), None);
}

#[test]
fn answer_is_announced_as_written_back() {
    let announced = SessionDescription::announced(SDP).expect("a payload");
    assert_eq!(announced, SDP);
    let lines_only = "v=0\no=- 1 2 IN IP4 10.0.0.1\ns=x\nt=0 0\n";
    let announced = SessionDescription::announced(lines_only).expect("a payload");
    assert_eq!(announced, "v=0\r\no=- 1 2 IN IP4 10.0.0.1\r\ns=x\r\nt=0 0\r\n");
}

#[test]
fn unreadable_answer_is_not_announced() {
    assert!(SessionDescription::announced("not an sdp").is_none());
    assert!(SessionDescription::announced("").is_none());
}
