use lindows::manager::SessionManager;
use lindows::session::{Action, ConnectionState, Event, Frame, Session, TrackPlan};
use lindows::signal::WSMessage;

fn session() -> Session {
    Session::new(TrackPlan::BeforeNegotiation).0
}

fn teardown() -> Vec<Action> {
    vec![
        Action::ClosePeerConnection,
        Action::StopRtcpReaders,
        Action::ReleaseDataChannels,
        Action::CloseSocket,
    ]
}

#[test]
fn ids_start_at_one_and_grow() {
    let mut m = SessionManager::new();
    assert!(m.is_empty());
    assert_eq!(m.register(session()).ok(), Some(1));
    assert_eq!(m.register(session()).ok(), Some(2));
    assert_eq!(m.register(session()).ok(), Some(3));
    assert_eq!(m.len(), 3);
    assert_eq!(m.ids(), vec![1, 2, 3]);
}

#[test]
fn ids_are_not_handed_out_again() {
    let mut m = SessionManager::new();
    m.register(session()).expect("an id");
    m.register(session()).expect("an id");
    assert_eq!(m.remove(2), Some(teardown()));
    assert_eq!(m.register(session()).ok(), Some(3));
    assert_eq!(m.ids(), vec![1, 3]);
    assert!(m.contains(1));
    assert!(!m.contains(2));
    assert!(m.contains(3));
}

#[test]
fn removing_what_is_not_there_changes_nothing() {
    let mut m = SessionManager::new();
    m.register(session()).expect("an id");
    assert_eq!(m.remove(9), None);
    assert_eq!(m.len(), 1);
    assert_eq!(m.remove(1), Some(teardown()));
    assert_eq!(m.remove(1), None);
    assert!(m.is_empty());
}

#[test]
fn removing_a_closed_session_asks_for_nothing() {
    let mut m = SessionManager::new();
    let mut s = session();
    s.close();
    m.register(s).expect("an id");
    assert_eq!(m.remove(1), Some(vec![]));
}

#[test]
fn events_reach_the_session_they_are_for() {
    let mut m = SessionManager::new();
    m.register(session()).expect("an id");
    m.register(session()).expect("an id");
    let actions = m.dispatch(2, &Event::Frame(Frame::Ping));
    assert_eq!(actions, Some(vec![Action::SendPong]));
    assert_eq!(m.dispatch(5, &Event::Frame(Frame::Ping)), None);
    assert_eq!(m.ids(), vec![1, 2]);
}

#[test]
fn client_that_leaves_is_forgotten_and_the_other_stays() {
    let mut m = SessionManager::new();
    let a = m.register(session()).expect("an id");
    let b = m.register(session()).expect("an id");
    m.dispatch(a, &Event::ConnectionChanged(ConnectionState::Connected));
    m.dispatch(b, &Event::ConnectionChanged(ConnectionState::Connected));
    assert_eq!(m.recipients(), vec![a, b]);
    let actions = m.dispatch(b, &Event::Frame(Frame::Close));
    assert_eq!(actions, Some(teardown()));
    assert!(!m.contains(b));
    assert!(m.contains(a));
    assert_eq!(m.recipients(), vec![a]);
    assert_eq!(m.dispatch(a, &Event::Frame(Frame::Ping)), Some(vec![Action::SendPong]));
}

#[test]
fn samples_reach_the_connected_and_no_others() {
    let mut m = SessionManager::new();
    let a = m.register(session()).expect("an id");
    let b = m.register(session()).expect("an id");
    let c = m.register(session()).expect("an id");
    let mut closed = session();
    closed.close();
    let d = m.register(closed).expect("an id");
    assert_eq!(m.recipients(), Vec::<u64>::new());
    m.dispatch(a, &Event::ConnectionChanged(ConnectionState::Connected));
    m.dispatch(b, &Event::ConnectionChanged(ConnectionState::Connecting));
    m.dispatch(c, &Event::ConnectionChanged(ConnectionState::Connected));
    assert_eq!(m.recipients(), vec![a, c]);
    m.dispatch(c, &Event::ConnectionChanged(ConnectionState::Disconnected));
    assert_eq!(m.recipients(), vec![a]);
    assert!(m.contains(d));
}

#[test]
fn broadcast_addresses_every_session() {
    let mut m = SessionManager::new();
    m.register(session()).expect("an id");
    m.register(session()).expect("an id");
    let sends = m.broadcast_signaling(&WSMessage::new("ping", "all"));
    assert_eq!(
        sends,
        vec![
            (1, Action::Send(WSMessage::new("ping", "all"))),
            (2, Action::Send(WSMessage::new("ping", "all"))),
        ]
    );
    assert!(SessionManager::new().broadcast_signaling(&WSMessage::pong()).is_empty());
}

#[test]
fn two_clients_do_not_disturb_each_other() {
    let sdp = "v=0\r\no=- 1 2 IN IP4 127.0.0.1\r\ns=-\r\nt=0 0\r\n";
    let mut m = SessionManager::new();
    let a = m.register(session()).expect("an id");
    let b = m.register(session()).expect("an id");
    let offer = Event::Frame(Frame::Text(WSMessage::new("offer", sdp).to_json()));
    m.dispatch(a, &offer);
    m.dispatch(a, &Event::RemoteDescriptionSet);
    assert_eq!(m.dispatch(b, &Event::RemoteDescriptionSet), Some(vec![]));
    assert_eq!(m.dispatch(b, &Event::AnswerCreated(sdp.to_string())), Some(vec![]));
    let actions = m.dispatch(a, &Event::AnswerCreated(sdp.to_string())).expect("a session");
    assert_eq!(actions.len(), 2);
    assert_eq!(actions[0], Action::Send(WSMessage::new("answer", sdp)));
}

#[test]
fn session_without_the_track_gets_no_samples() {
    let mut m = SessionManager::new();
    let viewer = m.register(Session::new(TrackPlan::Never).0).expect("an id");
    let late = m.register(Session::new(TrackPlan::WhenConnected).0).expect("an id");
    m.dispatch(viewer, &Event::ConnectionChanged(ConnectionState::Connected));
    assert_eq!(m.recipients(), Vec::<u64>::new());
    m.dispatch(late, &Event::ConnectionChanged(ConnectionState::Connected));
    assert_eq!(m.recipients(), vec![late]);
}

#[test]
fn closing_all_leaves_no_session_and_keeps_the_ids_used() {
    let mut m = SessionManager::new();
    m.register(session()).expect("an id");
    let mut closed = session();
    closed.close();
    m.register(closed).expect("an id");
    m.register(session()).expect("an id");
    assert_eq!(m.close_all(), vec![(1, teardown()), (2, vec![]), (3, teardown())]);
    assert!(m.is_empty());
    assert!(m.close_all().is_empty());
    assert_eq!(m.register(session()).ok(), Some(4));
}

#[test]
fn sessions_can_be_looked_at() {
    let mut m = SessionManager::new();
    let a = m.register(session()).expect("an id");
    assert!(m.session(9).is_none());
    assert_eq!(m.session(a).map(|s| s.connection()), Some(ConnectionState::New));
    m.dispatch(a, &Event::ConnectionChanged(ConnectionState::Connecting));
    assert_eq!(m.session(a).map(|s| s.connection()), Some(ConnectionState::Connecting));
    assert_eq!(m.session(a).map(|s| s.is_closed()), Some(false));
}
