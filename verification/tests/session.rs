use lindows::candidate::{CandidateInit, IceCandidate};
use lindows::sdp::{SdpKind, SessionDescription};
use lindows::session::{Action, ConnectionState, Event, Frame, Session, TrackPlan};
use lindows::signal::WSMessage;

const SDP: &str = "v=0\r\no=- 4611731400430051336 2 IN IP4 127.0.0.1\r\ns=-\r\nt=0 0\r\n";

fn host(port: u16) -> IceCandidate {
    IceCandidate {
        stats_id: "candidate:test".to_string(),
        foundation: "1".to_string(),
        priority: 2130706431,
        address: "192.168.1.2".to_string(),
        protocol: "udp".to_string(),
        port,
        typ: "host".to_string(),
        component: 1,
        related_address: String::new(),
        related_port: 0,
        tcp_type: String::new(),
    }
}

fn line(port: u16) -> String {
    format!("candidate:1 1 udp 2130706431 192.168.1.2 {} typ host", port)
}

fn text(event: &str, payload: &str) -> Event {
    Event::Frame(Frame::Text(WSMessage::new(event, payload).to_json()))
}

fn teardown() -> Vec<Action> {
    vec![
        Action::ClosePeerConnection,
        Action::StopRtcpReaders,
        Action::ReleaseDataChannels,
        Action::CloseSocket,
    ]
}

#[test]
fn answering_session_adds_the_track_at_once() {
    let (session, actions) = Session::new(TrackPlan::BeforeNegotiation);
    assert_eq!(actions, vec![Action::AttachTrack, Action::ReadRtcp]);
    assert!(!session.is_closed());
    assert!(session.has_track());
    assert!(!session.has_remote_description());
    assert_eq!(session.connection(), ConnectionState::New);
    assert_eq!(session.pending_len(), 0);
}

#[test]
fn offering_session_starts_with_a_transceiver() {
    let (session, actions) = Session::new(TrackPlan::WhenConnected);
    assert_eq!(actions, vec![Action::AddVideoTransceiver]);
    assert!(!session.has_track());
}

#[test]
fn viewer_session_opens_three_channels() {
    let (_, actions) = Session::new(TrackPlan::Never);
    assert_eq!(
        actions,
        vec![
            Action::OpenDataChannel("key".to_string()),
            Action::OpenDataChannel("mouse".to_string()),
            Action::OpenDataChannel("common".to_string()),
        ]
    );
}

#[test]
fn single_client_happy_path() {
    let (mut s, _) = Session::new(TrackPlan::BeforeNegotiation);
    let actions = s.handle(&text("offer", SDP));
    assert_eq!(
        actions,
        vec![Action::SetRemoteDescription(SessionDescription::new(SdpKind::Offer, SDP))]
    );
    assert!(!s.has_remote_description());
    let actions = s.handle(&Event::RemoteDescriptionSet);
    assert_eq!(actions, vec![Action::CreateAnswer]);
    assert!(s.has_remote_description());
    let actions = s.handle(&Event::AnswerCreated(SDP.to_string()));
    assert_eq!(
        actions,
        vec![
            Action::Send(WSMessage::new("answer", SDP)),
            Action::SetLocalDescription(SessionDescription::new(SdpKind::Answer, SDP)),
        ]
    );
    let actions = s.handle(&Event::LocalCandidate(host(5000)));
    assert_eq!(actions, vec![Action::Send(WSMessage::new("candidate", &line(5000)))]);
    let actions = s.handle(&Event::LocalCandidate(host(5001)));
    assert_eq!(actions, vec![Action::Send(WSMessage::new("candidate", &line(5001)))]);
    let actions = s.handle(&Event::ConnectionChanged(ConnectionState::Connected));
    assert_eq!(actions, vec![Action::StartCapture]);
    assert_eq!(s.connection(), ConnectionState::Connected);
}

#[test]
fn candidates_before_the_offer_come_first_and_in_order() {
    let (mut s, _) = Session::new(TrackPlan::BeforeNegotiation);
    assert!(s.handle(&Event::LocalCandidate(host(1))).is_empty());
    assert!(s.handle(&Event::LocalCandidate(host(2))).is_empty());
    assert_eq!(s.pending_len(), 2);
    s.handle(&text("offer", SDP));
    s.handle(&Event::RemoteDescriptionSet);
    let actions = s.handle(&Event::AnswerCreated(SDP.to_string()));
    assert_eq!(
        actions,
        vec![
            Action::Send(WSMessage::new("answer", SDP)),
            Action::Send(WSMessage::new("candidate", &line(1))),
            Action::Send(WSMessage::new("candidate", &line(2))),
            Action::SetLocalDescription(SessionDescription::new(SdpKind::Answer, SDP)),
        ]
    );
    assert_eq!(s.pending_len(), 0);
    let actions = s.handle(&Event::LocalCandidate(host(3)));
    assert_eq!(actions, vec![Action::Send(WSMessage::new("candidate", &line(3)))]);
}

#[test]
fn candidate_between_remote_description_and_answer_keeps_its_place() {
    let (mut s, _) = Session::new(TrackPlan::BeforeNegotiation);
    s.handle(&Event::LocalCandidate(host(1)));
    s.handle(&text("offer", SDP));
    s.handle(&Event::RemoteDescriptionSet);
    assert!(s.handle(&Event::LocalCandidate(host(2))).is_empty());
    let actions = s.handle(&Event::AnswerCreated(SDP.to_string()));
    assert_eq!(
        actions,
        vec![
            Action::Send(WSMessage::new("answer", SDP)),
            Action::Send(WSMessage::new("candidate", &line(1))),
            Action::Send(WSMessage::new("candidate", &line(2))),
            Action::SetLocalDescription(SessionDescription::new(SdpKind::Answer, SDP)),
        ]
    );
}

#[test]
fn answer_lets_the_held_back_candidates_go() {
    let (mut s, _) = Session::new(TrackPlan::Never);
    s.handle(&Event::LocalCandidate(host(7)));
    let actions = s.handle(&Event::OfferRequested);
    assert_eq!(actions, vec![Action::CreateOffer]);
    let actions = s.handle(&Event::OfferCreated(SDP.to_string()));
    assert_eq!(
        actions,
        vec![Action::SetLocalDescription(SessionDescription::new(SdpKind::Offer, SDP))]
    );
    let actions = s.handle(&Event::LocalDescriptionSet(SdpKind::Offer));
    assert_eq!(actions, vec![Action::Send(WSMessage::new("offer", SDP))]);
    s.handle(&Event::LocalCandidate(host(8)));
    let actions = s.handle(&text("answer", SDP));
    assert_eq!(
        actions,
        vec![Action::SetRemoteDescription(SessionDescription::new(SdpKind::Answer, SDP))]
    );
    assert_eq!(s.pending_len(), 2);
    let actions = s.handle(&Event::RemoteDescriptionSet);
    assert_eq!(
        actions,
        vec![
            Action::Send(WSMessage::new("candidate", &line(7))),
            Action::Send(WSMessage::new("candidate", &line(8))),
        ]
    );
    assert!(s.has_remote_description());
    assert_eq!(s.pending_len(), 0);
}

#[test]
fn candidate_without_a_line_is_dropped() {
    let (mut s, _) = Session::new(TrackPlan::BeforeNegotiation);
    let mut broken = host(1);
    broken.typ = "other".to_string();
    assert!(s.handle(&Event::LocalCandidate(broken)).is_empty());
    assert_eq!(s.pending_len(), 0);
    assert!(s.candidate_lined(None).is_empty());
    assert_eq!(s.pending_len(), 0);
}

#[test]
fn unknown_event_is_ignored() {
    let (mut s, _) = Session::new(TrackPlan::BeforeNegotiation);
    let actions = s.handle(&Event::Frame(Frame::Text(
        "{\"event\":\"hello\",\"payload\":\"\"}".to_string(),
    )));
    assert!(actions.is_empty());
    assert!(!s.is_closed());
    let actions = s.handle(&text("offer", SDP));
    assert_eq!(
        actions,
        vec![Action::SetRemoteDescription(SessionDescription::new(SdpKind::Offer, SDP))]
    );
}

#[test]
fn ping_is_answered_with_pong() {
    let (mut s, _) = Session::new(TrackPlan::BeforeNegotiation);
    let actions =
        s.handle(&Event::Frame(Frame::Text("{\"event\":\"ping\",\"payload\":\"\"}".to_string())));
    assert_eq!(actions, vec![Action::Send(WSMessage::new("pong", ""))]);
    let actions = s.handle(&Event::Frame(Frame::Ping));
    assert_eq!(actions, vec![Action::SendPong]);
    assert!(s.handle(&Event::Frame(Frame::Pong)).is_empty());
    assert!(s.handle(&text("pong", "")).is_empty());
    assert!(s.handle(&Event::Frame(Frame::Other)).is_empty());
}

#[test]
fn malformed_frame_is_passed_over() {
    let (mut s, _) = Session::new(TrackPlan::BeforeNegotiation);
    assert!(s.handle(&Event::Frame(Frame::Text("{".to_string()))).is_empty());
    assert!(s.handle(&Event::Frame(Frame::Text(String::new()))).is_empty());
    assert!(!s.is_closed());
}

#[test]
fn unreadable_offer_is_passed_over() {
    let (mut s, _) = Session::new(TrackPlan::BeforeNegotiation);
    assert!(s.handle(&text("offer", "no sdp")).is_empty());
    assert!(!s.is_closed());
    assert!(s.handle(&Event::RemoteDescriptionSet).is_empty());
    assert!(!s.has_remote_description());
}

#[test]
fn remote_candidate_is_fed_to_the_peer_connection() {
    let (mut s, _) = Session::new(TrackPlan::BeforeNegotiation);
    let actions = s.handle(&text("candidate", "candidate:1 1 udp 1 10.0.0.1 9 typ host"));
    assert_eq!(
        actions,
        vec![Action::AddIceCandidate(CandidateInit {
            candidate: "candidate:1 1 udp 1 10.0.0.1 9 typ host".to_string(),
            sdp_mid: Some(String::new()),
            sdp_mline_index: Some(0),
        })]
    );
}

#[test]
fn refused_remote_description_tears_the_session_down() {
    let (mut s, _) = Session::new(TrackPlan::BeforeNegotiation);
    s.handle(&text("offer", SDP));
    let actions = s.handle(&Event::RemoteDescriptionRejected);
    assert_eq!(actions, teardown());
    assert!(s.is_closed());
    assert_eq!(s.connection(), ConnectionState::Closed);
}

#[test]
fn refusal_that_nothing_waited_for_changes_nothing() {
    let (mut s, _) = Session::new(TrackPlan::BeforeNegotiation);
    assert!(s.handle(&Event::RemoteDescriptionRejected).is_empty());
    assert!(!s.is_closed());
}

#[test]
fn connected_session_without_track_offers() {
    let (mut s, _) = Session::new(TrackPlan::WhenConnected);
    let actions = s.handle(&Event::ConnectionChanged(ConnectionState::Connected));
    assert_eq!(actions, vec![Action::AttachTrack, Action::ReadRtcp, Action::CreateOffer]);
    assert!(s.has_track());
    let actions = s.handle(&Event::OfferCreated(SDP.to_string()));
    assert_eq!(
        actions,
        vec![Action::SetLocalDescription(SessionDescription::new(SdpKind::Offer, SDP))]
    );
    let actions = s.handle(&Event::LocalDescriptionSet(SdpKind::Offer));
    assert_eq!(
        actions,
        vec![Action::Send(WSMessage::new("offer", SDP)), Action::StartCapture]
    );
    assert!(s.handle(&Event::LocalDescriptionSet(SdpKind::Offer)).is_empty());
    let actions = s.handle(&Event::ConnectionChanged(ConnectionState::Connected));
    assert_eq!(actions, vec![Action::StartCapture]);
    assert!(s.handle(&Event::OfferCreated(SDP.to_string())).is_empty());
}

#[test]
fn refused_offer_is_not_sent() {
    let (mut s, _) = Session::new(TrackPlan::WhenConnected);
    s.handle(&Event::ConnectionChanged(ConnectionState::Connected));
    let actions = s.handle(&Event::OfferCreated(SDP.to_string()));
    assert_eq!(
        actions,
        vec![Action::SetLocalDescription(SessionDescription::new(SdpKind::Offer, SDP))]
    );
    assert!(s.handle(&Event::LocalDescriptionRejected(SdpKind::Offer)).is_empty());
    assert!(!s.is_closed());
    assert!(s.handle(&Event::LocalDescriptionSet(SdpKind::Offer)).is_empty());
    assert_eq!(s.handle(&Event::OfferRequested), vec![Action::CreateOffer]);
    s.handle(&Event::OfferCreated(SDP.to_string()));
    let actions = s.handle(&Event::LocalDescriptionSet(SdpKind::Offer));
    assert_eq!(
        actions,
        vec![Action::Send(WSMessage::new("offer", SDP)), Action::StartCapture]
    );
}

#[test]
fn offer_that_was_not_created_is_not_sent() {
    let (mut s, _) = Session::new(TrackPlan::Never);
    assert_eq!(s.send_offer(), vec![Action::CreateOffer]);
    assert!(s.handle(&Event::LocalDescriptionSet(SdpKind::Offer)).is_empty());
    assert!(s.handle(&Event::LocalDescriptionRejected(SdpKind::Offer)).is_empty());
}

#[test]
fn installing_an_answer_asks_for_nothing_more() {
    let (mut s, _) = Session::new(TrackPlan::BeforeNegotiation);
    s.handle(&text("offer", SDP));
    s.handle(&Event::RemoteDescriptionSet);
    s.handle(&Event::AnswerCreated(SDP.to_string()));
    assert!(s.handle(&Event::LocalDescriptionSet(SdpKind::Answer)).is_empty());
    assert!(s.handle(&Event::LocalDescriptionRejected(SdpKind::Answer)).is_empty());
    assert!(!s.is_closed());
    let (mut v, _) = Session::new(TrackPlan::Never);
    v.send_offer();
    v.offer_made(SDP);
    assert!(v.local_description_set(SdpKind::Answer).is_empty());
    assert!(v.local_description_rejected(SdpKind::Answer).is_empty());
    assert_eq!(
        v.local_description_set(SdpKind::Offer),
        vec![Action::Send(WSMessage::new("offer", SDP))]
    );
}

#[test]
fn viewer_neither_streams_nor_captures() {
    let (mut s, _) = Session::new(TrackPlan::Never);
    assert!(s.handle(&Event::ConnectionChanged(ConnectionState::Connected)).is_empty());
    assert_eq!(s.connection(), ConnectionState::Connected);
}

#[test]
fn other_connection_states_are_only_noted() {
    let (mut s, _) = Session::new(TrackPlan::BeforeNegotiation);
    assert!(s.handle(&Event::ConnectionChanged(ConnectionState::Connecting)).is_empty());
    assert_eq!(s.connection(), ConnectionState::Connecting);
    assert!(s.handle(&Event::ConnectionChanged(ConnectionState::Disconnected)).is_empty());
    assert_eq!(s.connection(), ConnectionState::Disconnected);
    assert!(!s.is_closed());
}

#[test]
fn failed_connection_tears_the_session_down() {
    let (mut s, _) = Session::new(TrackPlan::BeforeNegotiation);
    let actions = s.handle(&Event::ConnectionChanged(ConnectionState::Failed));
    assert_eq!(actions, teardown());
    assert!(s.is_closed());
}

#[test]
fn close_frame_tears_the_session_down() {
    let (mut s, _) = Session::new(TrackPlan::BeforeNegotiation);
    s.handle(&Event::LocalCandidate(host(1)));
    let actions = s.handle(&Event::Frame(Frame::Close));
    assert_eq!(actions, teardown());
    assert!(s.is_closed());
    assert_eq!(s.pending_len(), 0);
}

#[test]
fn closing_twice_is_closing_once() {
    let (mut once, _) = Session::new(TrackPlan::BeforeNegotiation);
    let (mut twice, _) = Session::new(TrackPlan::BeforeNegotiation);
    assert_eq!(once.close(), teardown());
    assert_eq!(twice.close(), teardown());
    assert!(twice.close().is_empty());
    assert_eq!(format!("{:?}", once), format!("{:?}", twice));
}

#[test]
fn closed_session_ignores_everything() {
    let (mut s, _) = Session::new(TrackPlan::BeforeNegotiation);
    s.close();
    assert!(s.handle(&text("ping", "")).is_empty());
    assert!(s.handle(&text("offer", SDP)).is_empty());
    assert!(s.handle(&Event::LocalCandidate(host(1))).is_empty());
    assert!(s.handle(&Event::Frame(Frame::Ping)).is_empty());
    assert!(s.handle(&Event::ConnectionChanged(ConnectionState::Connected)).is_empty());
    assert!(s.handle(&Event::OfferRequested).is_empty());
    assert_eq!(s.pending_len(), 0);
    assert_eq!(s.connection(), ConnectionState::Closed);
}

#[test]
fn answer_that_nobody_asked_for_is_dropped() {
    let (mut s, _) = Session::new(TrackPlan::BeforeNegotiation);
    assert!(s.handle(&Event::AnswerCreated(SDP.to_string())).is_empty());
    assert!(s.answer_announced(SDP, Some(SDP.to_string())).is_empty());
}

#[test]
fn unreadable_answer_is_not_sent() {
    let (mut s, _) = Session::new(TrackPlan::BeforeNegotiation);
    s.handle(&Event::LocalCandidate(host(1)));
    s.handle(&text("offer", SDP));
    s.handle(&Event::RemoteDescriptionSet);
    assert!(s.handle(&Event::AnswerCreated("no sdp".to_string())).is_empty());
    assert_eq!(s.pending_len(), 1);
}

#[test]
fn steps_take_what_was_read_elsewhere() {
    let (mut s, _) = Session::new(TrackPlan::BeforeNegotiation);
    assert!(s.offer_read(None).is_empty());
    let actions = s.offer_read(Some(SessionDescription::new(SdpKind::Offer, "x")));
    assert_eq!(
        actions,
        vec![Action::SetRemoteDescription(SessionDescription::new(SdpKind::Offer, "x"))]
    );
    assert!(s.candidate_lined(Some("first".to_string())).is_empty());
    assert_eq!(s.remote_description_set(), vec![Action::CreateAnswer]);
    let actions = s.answer_announced("raw", Some("written back".to_string()));
    assert_eq!(
        actions,
        vec![
            Action::Send(WSMessage::new("answer", "written back")),
            Action::Send(WSMessage::new("candidate", "first")),
            Action::SetLocalDescription(SessionDescription::new(SdpKind::Answer, "raw")),
        ]
    );
    let actions = s.candidate_lined(Some("second".to_string()));
    assert_eq!(actions, vec![Action::Send(WSMessage::new("candidate", "second"))]);
    let (mut v, _) = Session::new(TrackPlan::Never);
    assert!(v.answer_read(None).is_empty());
    let actions = v.answer_read(Some(SessionDescription::new(SdpKind::Answer, "y")));
    assert_eq!(
        actions,
        vec![Action::SetRemoteDescription(SessionDescription::new(SdpKind::Answer, "y"))]
    );
}

#[test]
fn message_arrives_without_a_frame() {
    let (mut s, _) = Session::new(TrackPlan::BeforeNegotiation);
    let actions = s.message_arrived(&WSMessage::new("ping", "whatever"));
    assert_eq!(actions, vec![Action::Send(WSMessage::new("pong", ""))]);
    assert!(s.message_arrived(&WSMessage::new("hello", "")).is_empty());
    let actions = s.frame_arrived(&Frame::Ping);
    assert_eq!(actions, vec![Action::SendPong]);
}

#[test]
fn candidate_whose_priority_cannot_be_worked_out_is_dropped() {
    let (mut s, _) = Session::new(TrackPlan::BeforeNegotiation);
    let mut c = host(1);
    c.priority = 0;
    c.component = 300;
    assert!(s.handle(&Event::LocalCandidate(c)).is_empty());
    assert_eq!(s.pending_len(), 0);
}
