//! Signaling messages: the tagged record that travels over the signaling
//! socket as a JSON text frame.

use vstd::prelude::*;
use crate::json::{json_member, json_quoted, quote, string_member};

verus! {

/// The events a signaling message can announce.
#[derive(Clone, Copy, Debug, PartialEq, Eq, Structural)]
pub enum SignalKind {
    Offer,
    Answer,
    Candidate,
    Ping,
    Pong,
    /// Any event name outside the five recognized ones.
    Unknown,
}

/// A signaling message: an event name and an opaque payload.
#[derive(Clone, Debug, PartialEq, Eq)]
pub struct WSMessage {
    pub event: String,
    pub payload: String,
}

/// The mathematical value of a [`WSMessage`].
pub struct WSMessageView {
    pub event: Seq<char>,
    pub payload: Seq<char>,
}

impl View for WSMessage {
    type V = WSMessageView;

    open spec fn view(&self) -> WSMessageView {
        WSMessageView { event: self.event@, payload: self.payload@ }
    }
}

impl DeepView for WSMessage {
    type V = WSMessageView;

    open spec fn deep_view(&self) -> WSMessageView {
        self@
    }
}

/// The kind that an event name stands for.
pub open spec fn kind_of(event: Seq<char>) -> SignalKind {
    if event == "offer"@ {
        SignalKind::Offer
    } else if event == "answer"@ {
        SignalKind::Answer
    } else if event == "candidate"@ {
        SignalKind::Candidate
    } else if event == "ping"@ {
        SignalKind::Ping
    } else if event == "pong"@ {
        SignalKind::Pong
    } else {
        SignalKind::Unknown
    }
}

/// The text frame of a message: a JSON object with the members `event` and
/// `payload`, in that order, both JSON strings.
pub open spec fn encoded(m: WSMessageView) -> Seq<char> {
    "{\"event\":"@ + json_quoted(m.event) + ",\"payload\":"@ + json_quoted(m.payload) + "}"@
}

/// The message that two members read from a frame give: both must be there.
pub open spec fn assembled(event: Option<Seq<char>>, payload: Option<Seq<char>>) -> Option<
    WSMessageView,
> {
    match (event, payload) {
        (Some(e), Some(p)) => Some(WSMessageView { event: e, payload: p }),
        _ => None,
    }
}

/// The message that a text frame carries, if it carries one.
pub open spec fn decoded(text: Seq<char>) -> Option<WSMessageView> {
    assembled(json_member(text, "event"@), json_member(text, "payload"@))
}

/// The view of an optional message.
pub open spec fn message_view(m: Option<WSMessage>) -> Option<WSMessageView> {
    match m {
        Some(m) => Some(m@),
        None => None,
    }
}

/// The view of an optional text.
pub open spec fn text_view(t: Option<String>) -> Option<Seq<char>> {
    match t {
        Some(t) => Some(t@),
        None => None,
    }
}

/// Whether `text` is exactly `word`.
pub(crate) fn is_word(text: &String, word: &str) -> (same: bool)
    ensures
        same == (text@ == word@),
{
    let owned = word.to_owned();
    *text == owned
}

impl WSMessage {
    /// A message with the given event name and payload.
    pub fn new(event: &str, payload: &str) -> (m: WSMessage)
        ensures
            m@ == (WSMessageView { event: event@, payload: payload@ }),
    {
        WSMessage { event: event.to_owned(), payload: payload.to_owned() }
    }

    /// An `offer` carrying a bare SDP.
    pub fn offer(sdp: &str) -> (m: WSMessage)
        ensures
            m@ == (WSMessageView { event: "offer"@, payload: sdp@ }),
    {
        WSMessage::new("offer", sdp)
    }

    /// An `answer` carrying a bare SDP.
    pub fn answer(sdp: &str) -> (m: WSMessage)
        ensures
            m@ == (WSMessageView { event: "answer"@, payload: sdp@ }),
    {
        WSMessage::new("answer", sdp)
    }

    /// A `candidate` carrying a candidate line.
    pub fn candidate(line: &str) -> (m: WSMessage)
        ensures
            m@ == (WSMessageView { event: "candidate"@, payload: line@ }),
    {
        WSMessage::new("candidate", line)
    }

    /// The reply to a `ping`: a `pong` with an empty payload.
    pub fn pong() -> (m: WSMessage)
        ensures
            m@ == (WSMessageView { event: "pong"@, payload: Seq::empty() }),
    {
        WSMessage { event: "pong".to_owned(), payload: String::new() }
    }

    /// The kind of this message, by its event name.
    pub fn kind(&self) -> (k: SignalKind)
        ensures
            k == kind_of(self.event@),
    {
        if is_word(&self.event, "offer") {
            SignalKind::Offer
        } else if is_word(&self.event, "answer") {
            SignalKind::Answer
        } else if is_word(&self.event, "candidate") {
            SignalKind::Candidate
        } else if is_word(&self.event, "ping") {
            SignalKind::Ping
        } else if is_word(&self.event, "pong") {
            SignalKind::Pong
        } else {
            SignalKind::Unknown
        }
    }

    /// The text frame for this message.
    pub fn to_json(&self) -> (text: String)
        ensures
            text@ == encoded(self@),
    {
        let mut text = "{\"event\":".to_owned();
        let event = quote(self.event.as_str());
        text.append(event.as_str());
        text.append(",\"payload\":");
        let payload = quote(self.payload.as_str());
        text.append(payload.as_str());
        text.append("}");
        text
    }

    /// Puts a message together from the two members read from a frame. A
    /// frame that lacks either member carries no message.
    pub fn from_members(event: Option<String>, payload: Option<String>) -> (m: Option<WSMessage>)
        ensures
            message_view(m) == assembled(text_view(event), text_view(payload)),
    {
        match (event, payload) {
            (Some(event), Some(payload)) => Some(WSMessage { event, payload }),
            _ => None,
        }
    }

    /// Reads the message that a text frame carries. A frame that is not a JSON
    /// object with string members `event` and `payload` carries none.
    pub fn from_json(text: &str) -> (m: Option<WSMessage>)
        ensures
            message_view(m) == decoded(text@),
    {
        let event = string_member(text, "event");
        let payload = string_member(text, "payload");
        WSMessage::from_members(event, payload)
    }
}

} // verus!
