//! The peer session: one per signaling client.
//!
//! A session decides; it performs nothing. Its owner hands it what happened
//! (a frame arrived on the signaling socket, the ICE agent produced a
//! candidate, the peer connection finished an operation or changed state) and
//! gets back, in order, what has to be done on the socket, on the peer
//! connection and on the capture pipeline.

use vstd::prelude::*;
use crate::candidate::{init_for, line_for, CandidateInit, CandidateInitView, IceCandidate};
use crate::sdp::{
    answer_payload, answered, description_view, offered, SdpKind, SessionDescription,
    SessionDescriptionView,
};
use crate::signal::{decoded, kind_of, text_view, SignalKind, WSMessage, WSMessageView};

verus! {

/// When a session adds the shared video track to its peer connection.
#[derive(Clone, Copy, Debug, PartialEq, Eq, Structural)]
pub enum TrackPlan {
    /// At once, before any offer or answer: the session answers the client's
    /// offer.
    BeforeNegotiation,
    /// When the connection is established: the session then makes an offer of
    /// its own. Until then the peer connection holds a video transceiver.
    WhenConnected,
    /// Never: the session belongs to a viewer, which only receives the video
    /// and opens the data channels `key`, `mouse` and `common` for its input.
    Never,
}

/// The state of a peer connection.
#[derive(Clone, Copy, Debug, PartialEq, Eq, Structural)]
pub enum ConnectionState {
    New,
    Connecting,
    Connected,
    Disconnected,
    Failed,
    Closed,
}

/// The remote description whose installation is under way.
#[derive(Clone, Copy, Debug, PartialEq, Eq, Structural)]
pub enum Awaited {
    Nothing,
    Offer,
    Answer,
}

/// A frame read from the signaling socket.
#[derive(Clone, Debug, PartialEq, Eq)]
pub enum Frame {
    Text(String),
    Ping,
    Pong,
    Close,
    /// A binary or raw frame: signaling has no use for it.
    Other,
}

/// Something that happened to a session.
#[derive(Clone, Debug, PartialEq, Eq)]
pub enum Event {
    /// A frame arrived on the signaling socket.
    Frame(Frame),
    /// The local ICE agent produced a candidate.
    LocalCandidate(IceCandidate),
    /// The peer connection installed the remote description it was given.
    RemoteDescriptionSet,
    /// The peer connection refused the remote description it was given.
    RemoteDescriptionRejected,
    /// The peer connection created the answer it was asked for; its SDP.
    AnswerCreated(String),
    /// The peer connection created the offer it was asked for; its SDP.
    OfferCreated(String),
    /// The peer connection installed the local description of the given role
    /// that it was given.
    LocalDescriptionSet(SdpKind),
    /// The peer connection refused the local description of the given role
    /// that it was given.
    LocalDescriptionRejected(SdpKind),
    /// The peer connection changed state.
    ConnectionChanged(ConnectionState),
    /// The user asked for a new offer to be made.
    OfferRequested,
}

/// Something a session asks its owner to do.
#[derive(Clone, Debug, PartialEq, Eq)]
pub enum Action {
    /// Add a video transceiver to the peer connection.
    AddVideoTransceiver,
    /// Open a data channel with the given label.
    OpenDataChannel(String),
    /// Add the shared video track to the peer connection.
    AttachTrack,
    /// Read the RTCP stream of the sender just created until it ends.
    ReadRtcp,
    /// Give the peer connection its remote description, and report whether
    /// it installed or refused it.
    SetRemoteDescription(SessionDescription),
    /// Have the peer connection create an answer, and report the answer.
    CreateAnswer,
    /// Have the peer connection create an offer, and report the offer.
    CreateOffer,
    /// Give the peer connection its local description, and report whether
    /// it installed or refused it, with the role of the description.
    SetLocalDescription(SessionDescription),
    /// Send a signaling message to the client.
    Send(WSMessage),
    /// Feed a candidate of the peer to the peer connection. A failure is
    /// reported and otherwise ignored.
    AddIceCandidate(CandidateInit),
    /// Answer a ping of the socket with a pong of the socket.
    SendPong,
    /// Tell the capture pipeline to begin.
    StartCapture,
    ClosePeerConnection,
    /// Stop the tasks that read RTCP.
    StopRtcpReaders,
    ReleaseDataChannels,
    /// Close the signaling socket with a close frame.
    CloseSocket,
}

/// The mathematical value of an [`Action`].
pub enum ActionView {
    AddVideoTransceiver,
    OpenDataChannel(Seq<char>),
    AttachTrack,
    ReadRtcp,
    SetRemoteDescription(SessionDescriptionView),
    CreateAnswer,
    CreateOffer,
    SetLocalDescription(SessionDescriptionView),
    Send(WSMessageView),
    AddIceCandidate(CandidateInitView),
    SendPong,
    StartCapture,
    ClosePeerConnection,
    StopRtcpReaders,
    ReleaseDataChannels,
    CloseSocket,
}

impl View for Action {
    type V = ActionView;

    open spec fn view(&self) -> ActionView {
        match self {
            Action::AddVideoTransceiver => ActionView::AddVideoTransceiver,
            Action::OpenDataChannel(label) => ActionView::OpenDataChannel(label@),
            Action::AttachTrack => ActionView::AttachTrack,
            Action::ReadRtcp => ActionView::ReadRtcp,
            Action::SetRemoteDescription(d) => ActionView::SetRemoteDescription(d@),
            Action::CreateAnswer => ActionView::CreateAnswer,
            Action::CreateOffer => ActionView::CreateOffer,
            Action::SetLocalDescription(d) => ActionView::SetLocalDescription(d@),
            Action::Send(m) => ActionView::Send(m@),
            Action::AddIceCandidate(c) => ActionView::AddIceCandidate(c@),
            Action::SendPong => ActionView::SendPong,
            Action::StartCapture => ActionView::StartCapture,
            Action::ClosePeerConnection => ActionView::ClosePeerConnection,
            Action::StopRtcpReaders => ActionView::StopRtcpReaders,
            Action::ReleaseDataChannels => ActionView::ReleaseDataChannels,
            Action::CloseSocket => ActionView::CloseSocket,
        }
    }
}

impl DeepView for Action {
    type V = ActionView;

    open spec fn deep_view(&self) -> ActionView {
        self@
    }
}

/// A peer session.
#[derive(Debug)]
pub struct Session {
    plan: TrackPlan,
    connection: ConnectionState,
    remote_set: bool,
    track_added: bool,
    closed: bool,
    awaiting_remote: Awaited,
    awaiting_answer: bool,
    awaiting_offer: bool,
    offer_pending: Option<String>,
    flushed: bool,
    pending: Vec<String>,
}

/// The mathematical value of a [`Session`].
pub struct SessionView {
    pub plan: TrackPlan,
    /// The last state that the peer connection reported.
    pub connection: ConnectionState,
    /// Whether the peer connection holds a remote description.
    pub remote_set: bool,
    /// Whether the shared track was added to the peer connection.
    pub track_added: bool,
    pub closed: bool,
    pub awaiting_remote: Awaited,
    /// Whether the peer connection was asked for an answer and has not
    /// delivered it.
    pub awaiting_answer: bool,
    /// Whether the peer connection was asked for an offer and has not
    /// delivered it.
    pub awaiting_offer: bool,
    /// The SDP of the offer that the peer connection was given to install and
    /// that goes to the peer once it is installed.
    pub offer_pending: Option<Seq<char>>,
    /// Whether the held-back candidates were sent. From then on candidates
    /// are sent as they come.
    pub flushed: bool,
    /// The lines of the candidates held back, oldest first.
    pub pending: Seq<Seq<char>>,
}

impl View for Session {
    type V = SessionView;

    closed spec fn view(&self) -> SessionView {
        SessionView {
            plan: self.plan,
            connection: self.connection,
            remote_set: self.remote_set,
            track_added: self.track_added,
            closed: self.closed,
            awaiting_remote: self.awaiting_remote,
            awaiting_answer: self.awaiting_answer,
            awaiting_offer: self.awaiting_offer,
            offer_pending: text_view(self.offer_pending),
            flushed: self.flushed,
            pending: self.pending.deep_view(),
        }
    }
}

impl DeepView for Session {
    type V = SessionView;

    open spec fn deep_view(&self) -> SessionView {
        self@
    }
}

/// A result of a step: the state after it and what it asks for.
pub type Outcome = (SessionView, Seq<ActionView>);

/// The state of a session that was just created.
pub open spec fn fresh(plan: TrackPlan) -> SessionView {
    SessionView {
        plan,
        connection: ConnectionState::New,
        remote_set: false,
        track_added: plan == TrackPlan::BeforeNegotiation,
        closed: false,
        awaiting_remote: Awaited::Nothing,
        awaiting_answer: false,
        awaiting_offer: false,
        offer_pending: None,
        flushed: false,
        pending: Seq::empty(),
    }
}

/// What a session asks for when it is created: the track at once, or a video
/// transceiver to stand in for it, or the three data channels of a viewer.
pub open spec fn opening(plan: TrackPlan) -> Seq<ActionView> {
    match plan {
        TrackPlan::BeforeNegotiation => seq![ActionView::AttachTrack, ActionView::ReadRtcp],
        TrackPlan::WhenConnected => seq![ActionView::AddVideoTransceiver],
        TrackPlan::Never => seq![
            ActionView::OpenDataChannel("key"@),
            ActionView::OpenDataChannel("mouse"@),
            ActionView::OpenDataChannel("common"@),
        ],
    }
}

/// The `candidate` message for a candidate line.
pub open spec fn candidate_message(line: Seq<char>) -> WSMessageView {
    WSMessageView { event: "candidate"@, payload: line }
}

/// The `candidate` messages for the given lines, in their order.
pub open spec fn candidate_messages(lines: Seq<Seq<char>>) -> Seq<ActionView> {
    Seq::new(lines.len(), |i: int| ActionView::Send(candidate_message(lines[i])))
}

/// The step that does nothing.
pub open spec fn unchanged(s: SessionView) -> Outcome {
    (s, Seq::empty())
}

/// Tearing a session down: the peer connection is closed, the RTCP readers
/// are stopped, the data channels released and the socket closed; what was
/// held back or under way is dropped.
pub open spec fn torn_down(s: SessionView) -> Outcome {
    (
        SessionView {
            connection: ConnectionState::Closed,
            closed: true,
            awaiting_remote: Awaited::Nothing,
            awaiting_answer: false,
            awaiting_offer: false,
            offer_pending: None,
            pending: Seq::empty(),
            ..s
        },
        seq![
            ActionView::ClosePeerConnection,
            ActionView::StopRtcpReaders,
            ActionView::ReleaseDataChannels,
            ActionView::CloseSocket,
        ],
    )
}

/// Closing a session: tearing it down, unless it is closed already.
pub open spec fn closing(s: SessionView) -> Outcome {
    if s.closed {
        unchanged(s)
    } else {
        torn_down(s)
    }
}

/// An `offer` arrived whose payload stands for `description`: the
/// description is handed to the peer connection. A payload that stands for
/// none is passed over.
pub open spec fn offer_received(
    s: SessionView,
    description: Option<SessionDescriptionView>,
) -> Outcome {
    match description {
        Some(d) => (
            SessionView { awaiting_remote: Awaited::Offer, ..s },
            seq![ActionView::SetRemoteDescription(d)],
        ),
        None => unchanged(s),
    }
}

/// An `answer` arrived whose payload stands for `description`.
pub open spec fn answer_received(
    s: SessionView,
    description: Option<SessionDescriptionView>,
) -> Outcome {
    match description {
        Some(d) => (
            SessionView { awaiting_remote: Awaited::Answer, ..s },
            seq![ActionView::SetRemoteDescription(d)],
        ),
        None => unchanged(s),
    }
}

/// Sending what was held back: one `candidate` message per line, oldest
/// first; the buffer is empty afterwards and stays out of use.
pub open spec fn flushing(s: SessionView) -> Outcome {
    (
        SessionView { flushed: true, pending: Seq::empty(), ..s },
        candidate_messages(s.pending),
    )
}

/// The peer connection installed a remote description. After an `offer` it
/// is asked for an answer; after an `answer` the held-back candidates are
/// sent. A report that nothing was waiting for changes nothing.
pub open spec fn remote_installed(s: SessionView) -> Outcome {
    match s.awaiting_remote {
        Awaited::Nothing => unchanged(s),
        Awaited::Offer => (
            SessionView {
                remote_set: true,
                awaiting_remote: Awaited::Nothing,
                awaiting_answer: true,
                ..s
            },
            seq![ActionView::CreateAnswer],
        ),
        Awaited::Answer => flushing(
            SessionView { remote_set: true, awaiting_remote: Awaited::Nothing, ..s },
        ),
    }
}

/// The peer connection refused a remote description: the session is torn
/// down if it was waiting for that installation.
pub open spec fn remote_refused(s: SessionView) -> Outcome {
    if s.awaiting_remote == Awaited::Nothing {
        unchanged(s)
    } else {
        torn_down(s)
    }
}

/// The peer connection created an answer with the text `sdp`, which is
/// announced under `payload`. The `answer` message goes out first, the
/// held-back candidates follow it, and only then is the answer installed as
/// the local description. An answer that cannot be announced is dropped, and
/// so is one that nobody asked for.
pub open spec fn answer_created(
    s: SessionView,
    sdp: Seq<char>,
    payload: Option<Seq<char>>,
) -> Outcome {
    if !s.awaiting_answer {
        unchanged(s)
    } else {
        let waiting = SessionView { awaiting_answer: false, ..s };
        match payload {
            None => unchanged(waiting),
            Some(p) => (
                flushing(waiting).0,
                seq![ActionView::Send(WSMessageView { event: "answer"@, payload: p })]
                    + flushing(waiting).1 + seq![
                    ActionView::SetLocalDescription(
                        SessionDescriptionView { kind: SdpKind::Answer, sdp },
                    ),
                ],
            ),
        }
    }
}

/// The peer connection created an offer with the text `sdp`: the peer
/// connection is given it to install as its local description. Nothing goes
/// to the peer before that is done.
pub open spec fn offer_created(s: SessionView, sdp: Seq<char>) -> Outcome {
    if !s.awaiting_offer {
        unchanged(s)
    } else {
        (
            SessionView { awaiting_offer: false, offer_pending: Some(sdp), ..s },
            seq![
                ActionView::SetLocalDescription(
                    SessionDescriptionView { kind: SdpKind::Offer, sdp },
                ),
            ],
        )
    }
}

/// The peer connection installed a local description of the role `kind`. If
/// that was the offer that waits to be sent, it is sent to the peer as it
/// is, and a session that streams tells the capture pipeline to begin. The
/// installing of an answer asks for nothing more: the answer went out before.
pub open spec fn local_installed(s: SessionView, kind: SdpKind) -> Outcome {
    match s.offer_pending {
        Some(sdp) => if kind == SdpKind::Offer {
            (
                SessionView { offer_pending: None, ..s },
                seq![ActionView::Send(WSMessageView { event: "offer"@, payload: sdp })] + if s.plan
                    == TrackPlan::Never {
                    Seq::empty()
                } else {
                    seq![ActionView::StartCapture]
                },
            )
        } else {
            unchanged(s)
        },
        None => unchanged(s),
    }
}

/// The peer connection refused a local description of the role `kind`. An
/// offer that waited to be sent is dropped: nothing goes to the peer. The
/// session stays.
pub open spec fn local_refused(s: SessionView, kind: SdpKind) -> Outcome {
    if kind == SdpKind::Offer {
        (SessionView { offer_pending: None, ..s }, Seq::empty())
    } else {
        unchanged(s)
    }
}

/// The user asked for a new offer: the peer connection is asked for one.
pub open spec fn offer_requested(s: SessionView) -> Outcome {
    (SessionView { awaiting_offer: true, ..s }, seq![ActionView::CreateOffer])
}

/// The local ICE agent produced a candidate with the given line. Once the
/// held-back candidates were sent it goes out at once; before that it joins
/// them. A candidate without a line is dropped.
pub open spec fn candidate_produced(s: SessionView, line: Option<Seq<char>>) -> Outcome {
    match line {
        None => unchanged(s),
        Some(l) => if s.flushed {
            (s, seq![ActionView::Send(candidate_message(l))])
        } else {
            (SessionView { pending: s.pending.push(l), ..s }, Seq::empty())
        },
    }
}

/// The peer connection changed state. Once connected, a session that has
/// not added the shared track adds it and asks for an offer; one that has
/// tells the capture pipeline to begin; a viewer's does neither. A failed or
/// closed connection tears the session down.
pub open spec fn connection_changed(s: SessionView, to: ConnectionState) -> Outcome {
    match to {
        ConnectionState::Connected => if s.plan == TrackPlan::Never {
            (SessionView { connection: to, ..s }, Seq::empty())
        } else if s.track_added {
            (SessionView { connection: to, ..s }, seq![ActionView::StartCapture])
        } else {
            (
                SessionView { connection: to, track_added: true, awaiting_offer: true, ..s },
                seq![ActionView::AttachTrack, ActionView::ReadRtcp, ActionView::CreateOffer],
            )
        },
        ConnectionState::Failed => torn_down(s),
        ConnectionState::Closed => torn_down(s),
        _ => (SessionView { connection: to, ..s }, Seq::empty()),
    }
}

/// A signaling message arrived.
pub open spec fn message_received(s: SessionView, m: WSMessageView) -> Outcome {
    match kind_of(m.event) {
        SignalKind::Offer => offer_received(s, offered(m.payload)),
        SignalKind::Answer => answer_received(s, answered(m.payload)),
        SignalKind::Candidate => (s, seq![ActionView::AddIceCandidate(init_for(m.payload))]),
        SignalKind::Ping => (
            s,
            seq![ActionView::Send(WSMessageView { event: "pong"@, payload: Seq::empty() })],
        ),
        SignalKind::Pong => unchanged(s),
        SignalKind::Unknown => unchanged(s),
    }
}

/// A frame arrived on the signaling socket.
pub open spec fn frame_received(s: SessionView, frame: Frame) -> Outcome {
    match frame {
        Frame::Text(text) => match decoded(text@) {
            Some(m) => message_received(s, m),
            None => unchanged(s),
        },
        Frame::Ping => (s, seq![ActionView::SendPong]),
        Frame::Pong => unchanged(s),
        Frame::Close => torn_down(s),
        Frame::Other => unchanged(s),
    }
}

/// What an event does to an open session.
pub open spec fn reaction(s: SessionView, event: Event) -> Outcome {
    match event {
        Event::Frame(frame) => frame_received(s, frame),
        Event::LocalCandidate(c) => candidate_produced(s, line_for(c@)),
        Event::RemoteDescriptionSet => remote_installed(s),
        Event::RemoteDescriptionRejected => remote_refused(s),
        Event::AnswerCreated(sdp) => answer_created(s, sdp@, answer_payload(sdp@)),
        Event::OfferCreated(sdp) => offer_created(s, sdp@),
        Event::LocalDescriptionSet(kind) => local_installed(s, kind),
        Event::LocalDescriptionRejected(kind) => local_refused(s, kind),
        Event::ConnectionChanged(to) => connection_changed(s, to),
        Event::OfferRequested => offer_requested(s),
    }
}

/// A closed session takes no step: `outcome` counts only while `s` is open.
pub open spec fn while_open(s: SessionView, outcome: Outcome) -> Outcome {
    if s.closed {
        unchanged(s)
    } else {
        outcome
    }
}

/// What an event does to a session: nothing once the session is closed.
pub open spec fn step(s: SessionView, event: Event) -> Outcome {
    while_open(s, reaction(s, event))
}

/// What a sequence of events does to a session: the state after the last
/// one, and all that was asked for on the way, in order.
pub open spec fn run(s: SessionView, events: Seq<Event>) -> Outcome
    decreases events.len(),
{
    if events.len() == 0 {
        unchanged(s)
    } else {
        let before = run(s, events.drop_last());
        let last = step(before.0, events.last());
        (last.0, before.1 + last.1)
    }
}

/// Appends one action to a list of actions.
fn emit(actions: &mut Vec<Action>, action: Action)
    ensures
        final(actions).deep_view() == old(actions).deep_view().push(action@),
{
    actions.push(action);
    assert(actions.deep_view() =~= old(actions).deep_view().push(action@));
}

/// The four actions that tear a session down.
fn teardown_actions() -> (actions: Vec<Action>)
    ensures
        actions.deep_view() == seq![
            ActionView::ClosePeerConnection,
            ActionView::StopRtcpReaders,
            ActionView::ReleaseDataChannels,
            ActionView::CloseSocket,
        ],
{
    let mut actions: Vec<Action> = Vec::new();
    assert(actions.deep_view() =~= Seq::<ActionView>::empty());
    emit(&mut actions, Action::ClosePeerConnection);
    emit(&mut actions, Action::StopRtcpReaders);
    emit(&mut actions, Action::ReleaseDataChannels);
    emit(&mut actions, Action::CloseSocket);
    assert(actions.deep_view() =~= seq![
        ActionView::ClosePeerConnection,
        ActionView::StopRtcpReaders,
        ActionView::ReleaseDataChannels,
        ActionView::CloseSocket,
    ]);
    actions
}

/// No action at all.
fn nothing() -> (actions: Vec<Action>)
    ensures
        actions.deep_view() == Seq::<ActionView>::empty(),
{
    let actions: Vec<Action> = Vec::new();
    assert(actions.deep_view() =~= Seq::<ActionView>::empty());
    actions
}

/// One action.
fn only(action: Action) -> (actions: Vec<Action>)
    ensures
        actions.deep_view() == seq![action@],
{
    let mut actions = nothing();
    emit(&mut actions, action);
    assert(actions.deep_view() =~= seq![action@]);
    actions
}

impl Session {
    /// A new session, and what it asks for at once: the shared track, or a
    /// video transceiver in its place.
    pub fn new(plan: TrackPlan) -> (made: (Session, Vec<Action>))
        ensures
            made.0@ == fresh(plan),
            made.1.deep_view() == opening(plan),
    {
        let pending: Vec<String> = Vec::new();
        assert(pending.deep_view() =~= Seq::<Seq<char>>::empty());
        let mut actions = nothing();
        let track_added = match plan {
            TrackPlan::BeforeNegotiation => {
                emit(&mut actions, Action::AttachTrack);
                emit(&mut actions, Action::ReadRtcp);
                true
            },
            TrackPlan::WhenConnected => {
                emit(&mut actions, Action::AddVideoTransceiver);
                false
            },
            TrackPlan::Never => {
                emit(&mut actions, Action::OpenDataChannel("key".to_owned()));
                emit(&mut actions, Action::OpenDataChannel("mouse".to_owned()));
                emit(&mut actions, Action::OpenDataChannel("common".to_owned()));
                false
            },
        };
        assert(actions.deep_view() =~= opening(plan));
        let session = Session {
            plan,
            connection: ConnectionState::New,
            remote_set: false,
            track_added,
            closed: false,
            awaiting_remote: Awaited::Nothing,
            awaiting_answer: false,
            awaiting_offer: false,
            offer_pending: None,
            flushed: false,
            pending,
        };
        (session, actions)
    }

    /// Whether the session was torn down.
    pub fn is_closed(&self) -> (closed: bool)
        ensures
            closed == self@.closed,
    {
        self.closed
    }

    /// The last state that the peer connection reported.
    pub fn connection(&self) -> (state: ConnectionState)
        ensures
            state == self@.connection,
    {
        self.connection
    }

    /// Whether the shared track was added to the peer connection.
    pub fn has_track(&self) -> (added: bool)
        ensures
            added == self@.track_added,
    {
        self.track_added
    }

    /// Whether the peer connection holds a remote description.
    pub fn has_remote_description(&self) -> (set: bool)
        ensures
            set == self@.remote_set,
    {
        self.remote_set
    }

    /// How many candidates are held back.
    pub fn pending_len(&self) -> (n: usize)
        ensures
            n == self@.pending.len(),
    {
        self.pending.len()
    }

    /// Marks the session as torn down and drops what it held.
    fn tear_down(&mut self) -> (actions: Vec<Action>)
        ensures
            (final(self)@, actions.deep_view()) == torn_down(old(self)@),
    {
        self.connection = ConnectionState::Closed;
        self.closed = true;
        self.awaiting_remote = Awaited::Nothing;
        self.awaiting_answer = false;
        self.awaiting_offer = false;
        self.offer_pending = None;
        self.pending = Vec::new();
        assert(self.pending.deep_view() =~= Seq::<Seq<char>>::empty());
        teardown_actions()
    }

    /// Appends the `candidate` messages for what is held back, oldest first,
    /// and empties the buffer for good.
    fn flush(&mut self, actions: &mut Vec<Action>)
        ensures
            final(self)@ == flushing(old(self)@).0,
            final(actions).deep_view() == old(actions).deep_view() + flushing(old(self)@).1,
    {
        let ghost before = actions.deep_view();
        let ghost lines = self.pending.deep_view();
        let mut i: usize = 0;
        while i < self.pending.len()
            invariant
                i <= self.pending.len(),
                *self == *old(self),
                lines == self.pending.deep_view(),
                actions.deep_view() == before + candidate_messages(lines.take(i as int)),
            decreases self.pending.len() - i,
        {
            let message = WSMessage::candidate(self.pending[i].as_str());
            emit(actions, Action::Send(message));
            assert(lines.take(i as int + 1) =~= lines.take(i as int).push(lines[i as int]));
            assert(candidate_messages(lines.take(i as int + 1)) =~= candidate_messages(
                lines.take(i as int),
            ).push(ActionView::Send(candidate_message(lines[i as int]))));
            i += 1;
        }
        assert(lines.take(i as int) =~= lines);
        self.pending = Vec::new();
        assert(self.pending.deep_view() =~= Seq::<Seq<char>>::empty());
        self.flushed = true;
    }

    /// Closes the session: tears it down, unless that was done before.
    pub fn close(&mut self) -> (actions: Vec<Action>)
        ensures
            (final(self)@, actions.deep_view()) == closing(old(self)@),
    {
        if self.closed {
            nothing()
        } else {
            self.tear_down()
        }
    }

    /// Takes the remote description that the payload of an `offer` stands
    /// for, if it stands for one.
    pub fn offer_read(&mut self, description: Option<SessionDescription>) -> (actions: Vec<Action>)
        ensures
            (final(self)@, actions.deep_view()) == while_open(
                old(self)@,
                offer_received(old(self)@, description_view(description)),
            ),
    {
        if self.closed {
            return nothing();
        }
        match description {
            Some(d) => {
                self.awaiting_remote = Awaited::Offer;
                only(Action::SetRemoteDescription(d))
            },
            None => nothing(),
        }
    }

    /// Takes the remote description that the payload of an `answer` stands
    /// for, if it stands for one.
    pub fn answer_read(&mut self, description: Option<SessionDescription>) -> (actions: Vec<Action>)
        ensures
            (final(self)@, actions.deep_view()) == while_open(
                old(self)@,
                answer_received(old(self)@, description_view(description)),
            ),
    {
        if self.closed {
            return nothing();
        }
        match description {
            Some(d) => {
                self.awaiting_remote = Awaited::Answer;
                only(Action::SetRemoteDescription(d))
            },
            None => nothing(),
        }
    }

    /// Takes the line of a candidate that the local ICE agent produced, if
    /// the candidate has one.
    pub fn candidate_lined(&mut self, line: Option<String>) -> (actions: Vec<Action>)
        ensures
            (final(self)@, actions.deep_view()) == while_open(
                old(self)@,
                candidate_produced(old(self)@, text_view(line)),
            ),
    {
        if self.closed {
            return nothing();
        }
        match line {
            None => nothing(),
            Some(l) => {
                if self.flushed {
                    only(Action::Send(WSMessage::candidate(l.as_str())))
                } else {
                    let ghost held = self.pending.deep_view();
                    self.pending.push(l);
                    assert(self.pending.deep_view() =~= held.push(l@));
                    nothing()
                }
            },
        }
    }

    /// Takes a freshly created answer with the text `sdp`, and the payload
    /// under which it is announced, if it can be announced.
    pub fn answer_announced(&mut self, sdp: &str, payload: Option<String>) -> (actions: Vec<Action>)
        ensures
            (final(self)@, actions.deep_view()) == while_open(
                old(self)@,
                answer_created(old(self)@, sdp@, text_view(payload)),
            ),
    {
        if self.closed || !self.awaiting_answer {
            return nothing();
        }
        self.awaiting_answer = false;
        match payload {
            None => nothing(),
            Some(p) => {
                let mut actions = only(Action::Send(WSMessage::answer(p.as_str())));
                self.flush(&mut actions);
                emit(
                    &mut actions,
                    Action::SetLocalDescription(SessionDescription::new(SdpKind::Answer, sdp)),
                );
                actions
            },
        }
    }

    /// The peer connection installed the remote description it was given.
    pub fn remote_description_set(&mut self) -> (actions: Vec<Action>)
        ensures
            (final(self)@, actions.deep_view()) == while_open(
                old(self)@,
                remote_installed(old(self)@),
            ),
    {
        if self.closed {
            return nothing();
        }
        match self.awaiting_remote {
            Awaited::Nothing => nothing(),
            Awaited::Offer => {
                self.remote_set = true;
                self.awaiting_remote = Awaited::Nothing;
                self.awaiting_answer = true;
                only(Action::CreateAnswer)
            },
            Awaited::Answer => {
                self.remote_set = true;
                self.awaiting_remote = Awaited::Nothing;
                let mut actions = nothing();
                self.flush(&mut actions);
                actions
            },
        }
    }

    /// The peer connection refused the remote description it was given.
    pub fn remote_description_rejected(&mut self) -> (actions: Vec<Action>)
        ensures
            (final(self)@, actions.deep_view()) == while_open(
                old(self)@,
                remote_refused(old(self)@),
            ),
    {
        if self.closed {
            return nothing();
        }
        match self.awaiting_remote {
            Awaited::Nothing => nothing(),
            _ => self.tear_down(),
        }
    }

    /// The peer connection created the offer it was asked for.
    pub fn offer_made(&mut self, sdp: &str) -> (actions: Vec<Action>)
        ensures
            (final(self)@, actions.deep_view()) == while_open(
                old(self)@,
                offer_created(old(self)@, sdp@),
            ),
    {
        if self.closed || !self.awaiting_offer {
            return nothing();
        }
        self.awaiting_offer = false;
        self.offer_pending = Some(sdp.to_owned());
        only(Action::SetLocalDescription(SessionDescription::new(SdpKind::Offer, sdp)))
    }

    /// The peer connection installed the local description of the role
    /// `kind` that it was given.
    pub fn local_description_set(&mut self, kind: SdpKind) -> (actions: Vec<Action>)
        ensures
            (final(self)@, actions.deep_view()) == while_open(
                old(self)@,
                local_installed(old(self)@, kind),
            ),
    {
        if self.closed {
            return nothing();
        }
        match kind {
            SdpKind::Offer => {},
            _ => {
                return nothing();
            },
        }
        let message = match &self.offer_pending {
            Some(sdp) => WSMessage::offer(sdp.as_str()),
            None => {
                return nothing();
            },
        };
        self.offer_pending = None;
        let mut actions = only(Action::Send(message));
        match self.plan {
            TrackPlan::Never => {},
            _ => {
                emit(&mut actions, Action::StartCapture);
            },
        }
        assert(actions.deep_view() =~= local_installed(old(self)@, kind).1);
        actions
    }

    /// The peer connection refused the local description of the role `kind`
    /// that it was given.
    pub fn local_description_rejected(&mut self, kind: SdpKind) -> (actions: Vec<Action>)
        ensures
            (final(self)@, actions.deep_view()) == while_open(
                old(self)@,
                local_refused(old(self)@, kind),
            ),
    {
        if self.closed {
            return nothing();
        }
        match kind {
            SdpKind::Offer => {
                self.offer_pending = None;
            },
            _ => {},
        }
        nothing()
    }

    /// The user asked for a new offer.
    pub fn send_offer(&mut self) -> (actions: Vec<Action>)
        ensures
            (final(self)@, actions.deep_view()) == while_open(
                old(self)@,
                offer_requested(old(self)@),
            ),
    {
        if self.closed {
            return nothing();
        }
        self.awaiting_offer = true;
        only(Action::CreateOffer)
    }

    /// The peer connection changed state.
    pub fn connection_moved(&mut self, to: ConnectionState) -> (actions: Vec<Action>)
        ensures
            (final(self)@, actions.deep_view()) == while_open(
                old(self)@,
                connection_changed(old(self)@, to),
            ),
    {
        if self.closed {
            return nothing();
        }
        match to {
            ConnectionState::Connected => {
                self.connection = to;
                if let TrackPlan::Never = self.plan {
                    nothing()
                } else if self.track_added {
                    only(Action::StartCapture)
                } else {
                    self.track_added = true;
                    self.awaiting_offer = true;
                    let mut actions = only(Action::AttachTrack);
                    emit(&mut actions, Action::ReadRtcp);
                    emit(&mut actions, Action::CreateOffer);
                    assert(actions.deep_view() =~= connection_changed(old(self)@, to).1);
                    actions
                }
            },
            ConnectionState::Failed => self.tear_down(),
            ConnectionState::Closed => self.tear_down(),
            _ => {
                self.connection = to;
                nothing()
            },
        }
    }

    /// A signaling message arrived.
    pub fn message_arrived(&mut self, message: &WSMessage) -> (actions: Vec<Action>)
        ensures
            (final(self)@, actions.deep_view()) == while_open(
                old(self)@,
                message_received(old(self)@, message@),
            ),
    {
        if self.closed {
            return nothing();
        }
        match message.kind() {
            SignalKind::Offer => {
                let description = SessionDescription::from_offer_payload(message.payload.as_str());
                self.offer_read(description)
            },
            SignalKind::Answer => {
                let description = SessionDescription::from_answer_payload(message.payload.as_str());
                self.answer_read(description)
            },
            SignalKind::Candidate => only(
                Action::AddIceCandidate(CandidateInit::from_payload(message.payload.as_str())),
            ),
            SignalKind::Ping => only(Action::Send(WSMessage::pong())),
            SignalKind::Pong => nothing(),
            SignalKind::Unknown => nothing(),
        }
    }

    /// A frame arrived on the signaling socket.
    pub fn frame_arrived(&mut self, frame: &Frame) -> (actions: Vec<Action>)
        ensures
            (final(self)@, actions.deep_view()) == while_open(
                old(self)@,
                frame_received(old(self)@, *frame),
            ),
    {
        if self.closed {
            return nothing();
        }
        match frame {
            Frame::Text(text) => {
                match WSMessage::from_json(text.as_str()) {
                    Some(message) => self.message_arrived(&message),
                    None => nothing(),
                }
            },
            Frame::Ping => only(Action::SendPong),
            Frame::Pong => nothing(),
            Frame::Close => self.tear_down(),
            Frame::Other => nothing(),
        }
    }

    /// Takes an event and says what has to be done about it.
    pub fn handle(&mut self, event: &Event) -> (actions: Vec<Action>)
        ensures
            (final(self)@, actions.deep_view()) == step(old(self)@, *event),
    {
        match event {
            Event::Frame(frame) => self.frame_arrived(frame),
            Event::LocalCandidate(candidate) => {
                let line = candidate.line();
                self.candidate_lined(line)
            },
            Event::RemoteDescriptionSet => self.remote_description_set(),
            Event::RemoteDescriptionRejected => self.remote_description_rejected(),
            Event::AnswerCreated(sdp) => {
                let payload = SessionDescription::announced(sdp.as_str());
                self.answer_announced(sdp.as_str(), payload)
            },
            Event::OfferCreated(sdp) => self.offer_made(sdp.as_str()),
            Event::LocalDescriptionSet(kind) => self.local_description_set(*kind),
            Event::LocalDescriptionRejected(kind) => self.local_description_rejected(*kind),
            Event::ConnectionChanged(to) => self.connection_moved(*to),
            Event::OfferRequested => self.send_offer(),
        }
    }
}

/// Closing a session twice leaves it as closing it once does, and the
/// second closing asks for nothing.
pub proof fn lemma_close_idempotent(s: SessionView)
    ensures
        closing(closing(s).0) == unchanged(closing(s).0),
{
}

/// A closed session stays as it is and asks for nothing, whatever happens.
pub proof fn lemma_closed_is_final(s: SessionView, events: Seq<Event>)
    requires
        s.closed,
    ensures
        run(s, events) == unchanged(s),
    decreases events.len(),
{
    if events.len() > 0 {
        lemma_closed_is_final(s, events.drop_last());
        assert(run(s, events).1 =~= Seq::<ActionView>::empty());
    }
}

/// Whether every adding of the shared track in a list of actions is
/// followed at once by the reading of the new sender's RTCP.
pub open spec fn tracks_are_read(actions: Seq<ActionView>) -> bool {
    forall|i: int|
        0 <= i < actions.len() && #[trigger] actions[i] == ActionView::AttachTrack ==> i + 1
            < actions.len() && actions[i + 1] == ActionView::ReadRtcp
}

/// Whenever a session adds the shared track to its peer connection, at its
/// creation or later, it asks at once for the RTCP of the new sender to be
/// read.
pub proof fn lemma_track_is_read(s: SessionView, event: Event, plan: TrackPlan)
    ensures
        tracks_are_read(opening(plan)),
        tracks_are_read(step(s, event).1),
{
}

/// A session that streams has the shared track on its peer connection
/// whenever that connection is connected: the track was added at the start
/// or is added the moment the connection is established.
pub proof fn lemma_connected_has_track(plan: TrackPlan, events: Seq<Event>)
    requires
        plan != TrackPlan::Never,
    ensures
        run(fresh(plan), events).0.plan == plan,
        run(fresh(plan), events).0.connection == ConnectionState::Connected ==> run(
            fresh(plan),
            events,
        ).0.track_added,
    decreases events.len(),
{
    if events.len() > 0 {
        lemma_connected_has_track(plan, events.drop_last());
    }
}

/// A closed session is never connected: its connection counts as closed
/// from the moment it is torn down.
pub proof fn lemma_closed_is_not_connected(plan: TrackPlan, events: Seq<Event>)
    ensures
        run(fresh(plan), events).0.closed ==> run(fresh(plan), events).0.connection
            == ConnectionState::Closed,
    decreases events.len(),
{
    if events.len() > 0 {
        lemma_closed_is_not_connected(plan, events.drop_last());
    }
}

/// An offer of the session's own goes to the peer only once it is installed
/// as the local description. The step that takes the created offer asks for
/// the installing and sends nothing. If the installing is refused, nothing
/// is asked for and the offer is dropped: whatever is reported as installed
/// afterwards sends no offer either. If it is installed, the offer goes out,
/// with the SDP as it was created.
pub proof fn lemma_offer_follows_its_installing(s: SessionView, sdp: Seq<char>, later: SdpKind)
    requires
        s.awaiting_offer,
    ensures
        offer_created(s, sdp).1 == seq![
            ActionView::SetLocalDescription(SessionDescriptionView { kind: SdpKind::Offer, sdp }),
        ],
        local_refused(offer_created(s, sdp).0, SdpKind::Offer).1.len() == 0,
        local_installed(
            local_refused(offer_created(s, sdp).0, SdpKind::Offer).0,
            later,
        ).1.len() == 0,
        local_installed(offer_created(s, sdp).0, SdpKind::Offer).1[0] == ActionView::Send(
            WSMessageView { event: "offer"@, payload: sdp },
        ),
{
}

} // verus!
