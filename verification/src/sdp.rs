//! Session descriptions: the payload of `offer` and `answer` messages.
//!
//! A payload is accepted in two forms, a serialized description object and a
//! bare SDP. Reading either is the WebRTC stack's work; which of the two
//! readings counts is decided here.

use vstd::prelude::*;
use webrtc::peer_connection::sdp::sdp_type::RTCSdpType;
use webrtc::peer_connection::sdp::session_description::RTCSessionDescription;

verus! {

/// The role a description plays in a negotiation.
#[derive(Clone, Copy, Debug, PartialEq, Eq, Structural)]
pub enum SdpKind {
    Unspecified,
    Offer,
    Pranswer,
    Answer,
    Rollback,
}

/// A session description: its role and its SDP text.
#[derive(Clone, Debug, PartialEq, Eq)]
pub struct SessionDescription {
    pub kind: SdpKind,
    pub sdp: String,
}

/// The mathematical value of a [`SessionDescription`].
pub struct SessionDescriptionView {
    pub kind: SdpKind,
    pub sdp: Seq<char>,
}

impl View for SessionDescription {
    type V = SessionDescriptionView;

    open spec fn view(&self) -> SessionDescriptionView {
        SessionDescriptionView { kind: self.kind, sdp: self.sdp@ }
    }
}

impl DeepView for SessionDescription {
    type V = SessionDescriptionView;

    open spec fn deep_view(&self) -> SessionDescriptionView {
        self@
    }
}

/// The view of an optional description.
pub open spec fn description_view(d: Option<SessionDescription>) -> Option<
    SessionDescriptionView,
> {
    match d {
        Some(d) => Some(d@),
        None => None,
    }
}

/// What the WebRTC stack reads from `text` taken as a serialized description
/// object: the role and the SDP text of the object, or `None` if `text` is no
/// such object. The SDP text inside is not examined.
pub uninterp spec fn description_object(text: Seq<char>) -> Option<(SdpKind, Seq<char>)>;

/// Whether the WebRTC stack's SDP reader accepts `sdp`.
pub uninterp spec fn sdp_parses(sdp: Seq<char>) -> bool;

/// The SDP text that the WebRTC stack writes back after reading `sdp`.
pub uninterp spec fn sdp_canonical(sdp: Seq<char>) -> Seq<char>;

/// Calls `serde_json::from_str` for a `webrtc` `RTCSessionDescription`.
///
/// Believed: the outcome is the one named [`description_object`]; on success
/// the role and the SDP text are those of the object read.
#[verifier::external_body]
pub(crate) fn read_object(text: &str) -> (d: Option<SessionDescription>)
    ensures
        d matches Some(d) ==> description_object(text@) == Some((d.kind, d.sdp@)),
        d is None ==> description_object(text@) is None,
{
    let read = serde_json::from_str::<RTCSessionDescription>(text).ok()?;
    let kind = match read.sdp_type {
        RTCSdpType::Unspecified => SdpKind::Unspecified,
        RTCSdpType::Offer => SdpKind::Offer,
        RTCSdpType::Pranswer => SdpKind::Pranswer,
        RTCSdpType::Answer => SdpKind::Answer,
        RTCSdpType::Rollback => SdpKind::Rollback,
    };
    Some(SessionDescription { kind, sdp: read.sdp })
}

/// Calls `RTCSessionDescription::offer` of `webrtc`.
///
/// Believed, as its source shows: it succeeds exactly when the SDP reader
/// accepts the text, and then gives a description with the role `Offer` and
/// the text unchanged.
#[verifier::external_body]
pub(crate) fn bare_offer(sdp: &str) -> (d: Option<SessionDescription>)
    ensures
        d is Some <==> sdp_parses(sdp@),
        d matches Some(d) ==> d.kind == SdpKind::Offer && d.sdp@ == sdp@,
{
    let read = RTCSessionDescription::offer(sdp.to_owned()).ok()?;
    Some(SessionDescription { kind: SdpKind::Offer, sdp: read.sdp })
}

/// Calls `RTCSessionDescription::answer` of `webrtc`.
///
/// Believed, as its source shows: it succeeds exactly when the SDP reader
/// accepts the text, and then gives a description with the role `Answer` and
/// the text unchanged.
#[verifier::external_body]
pub(crate) fn bare_answer(sdp: &str) -> (d: Option<SessionDescription>)
    ensures
        d is Some <==> sdp_parses(sdp@),
        d matches Some(d) ==> d.kind == SdpKind::Answer && d.sdp@ == sdp@,
{
    let read = RTCSessionDescription::answer(sdp.to_owned()).ok()?;
    Some(SessionDescription { kind: SdpKind::Answer, sdp: read.sdp })
}

/// Calls `SessionDescription::unmarshal` of the `sdp` crate on the text, and
/// `SessionDescription::marshal` on what was read.
///
/// Believed: reading succeeds exactly when the SDP reader accepts the text,
/// and what is written back is the text named [`sdp_canonical`].
#[verifier::external_body]
pub(crate) fn rewrite(sdp: &str) -> (text: Option<String>)
    ensures
        text is Some <==> sdp_parses(sdp@),
        text matches Some(t) ==> t@ == sdp_canonical(sdp@),
{
    let mut reader = std::io::Cursor::new(sdp.as_bytes());
    let read = webrtc::sdp::description::session::SessionDescription::unmarshal(&mut reader);
    read.ok().map(|description| description.marshal())
}

/// The remote description that a payload stands for, given the two readings
/// of it: the reading as a description object counts if there is one, the
/// reading as a bare SDP otherwise.
pub open spec fn preferred(
    object: Option<SessionDescriptionView>,
    bare: Option<SessionDescriptionView>,
) -> Option<SessionDescriptionView> {
    match object {
        Some(d) => Some(d),
        None => bare,
    }
}

/// The reading of `payload` as a description object.
pub open spec fn object_reading(payload: Seq<char>) -> Option<SessionDescriptionView> {
    match description_object(payload) {
        Some((kind, sdp)) => Some(SessionDescriptionView { kind, sdp }),
        None => None,
    }
}

/// The reading of `payload` as a bare SDP in the role `kind`.
pub open spec fn bare_reading(kind: SdpKind, payload: Seq<char>) -> Option<
    SessionDescriptionView,
> {
    if sdp_parses(payload) {
        Some(SessionDescriptionView { kind, sdp: payload })
    } else {
        None
    }
}

/// The remote description that the payload of an `offer` stands for.
pub open spec fn offered(payload: Seq<char>) -> Option<SessionDescriptionView> {
    preferred(object_reading(payload), bare_reading(SdpKind::Offer, payload))
}

/// The remote description that the payload of an `answer` stands for.
pub open spec fn answered(payload: Seq<char>) -> Option<SessionDescriptionView> {
    preferred(object_reading(payload), bare_reading(SdpKind::Answer, payload))
}

/// The payload of the `answer` message for a freshly created answer: the
/// answer's SDP as the stack writes it back, if the stack can read it.
pub open spec fn answer_payload(sdp: Seq<char>) -> Option<Seq<char>> {
    if sdp_parses(sdp) {
        Some(sdp_canonical(sdp))
    } else {
        None
    }
}

impl SessionDescription {
    /// A description with the given role and text.
    pub fn new(kind: SdpKind, sdp: &str) -> (d: SessionDescription)
        ensures
            d@ == (SessionDescriptionView { kind, sdp: sdp@ }),
    {
        SessionDescription { kind, sdp: sdp.to_owned() }
    }

    /// Chooses between the two readings of a payload: the description object
    /// if the payload was one, the bare SDP otherwise.
    pub fn prefer(object: Option<SessionDescription>, bare: Option<SessionDescription>) -> (d:
        Option<SessionDescription>)
        ensures
            description_view(d) == preferred(description_view(object), description_view(bare)),
    {
        match object {
            Some(d) => Some(d),
            None => bare,
        }
    }

    /// Reads the payload of an `offer`: a serialized description object, or
    /// else a bare SDP that becomes an offer.
    pub fn from_offer_payload(payload: &str) -> (d: Option<SessionDescription>)
        ensures
            description_view(d) == offered(payload@),
    {
        let object = read_object(payload);
        if object.is_some() {
            return SessionDescription::prefer(object, None);
        }
        let bare = bare_offer(payload);
        SessionDescription::prefer(object, bare)
    }

    /// Reads the payload of an `answer`: a serialized description object, or
    /// else a bare SDP that becomes an answer.
    pub fn from_answer_payload(payload: &str) -> (d: Option<SessionDescription>)
        ensures
            description_view(d) == answered(payload@),
    {
        let object = read_object(payload);
        if object.is_some() {
            return SessionDescription::prefer(object, None);
        }
        let bare = bare_answer(payload);
        SessionDescription::prefer(object, bare)
    }

    /// The payload under which a freshly created answer is announced.
    pub fn announced(sdp: &str) -> (payload: Option<String>)
        ensures
            match payload {
                Some(p) => answer_payload(sdp@) == Some(p@),
                None => answer_payload(sdp@) is None,
            },
    {
        rewrite(sdp)
    }
}

/// A serialized description object and the bare SDP that it wraps stand for
/// the same remote description, in an `offer` as in an `answer`: whenever
/// `object` is the serialized form of a description with the text `sdp`, and
/// `sdp` is an SDP (the reader accepts it, and it is not itself a serialized
/// object), both payloads decode to the description that the object holds.
pub proof fn lemma_object_and_bare_agree(object: Seq<char>, sdp: Seq<char>)
    requires
        sdp_parses(sdp),
        description_object(sdp) is None,
    ensures
        description_object(object) == Some((SdpKind::Offer, sdp)) ==> offered(object) == offered(
            sdp,
        ) && offered(sdp) == Some(SessionDescriptionView { kind: SdpKind::Offer, sdp }),
        description_object(object) == Some((SdpKind::Answer, sdp)) ==> answered(object)
            == answered(sdp) && answered(sdp) == Some(
            SessionDescriptionView { kind: SdpKind::Answer, sdp },
        ),
{
}

} // verus!
