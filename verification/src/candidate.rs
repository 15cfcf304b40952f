//! ICE candidates: the local ones that are announced to the peer, the remote
//! ones that are fed to the peer connection, and the buffer that holds local
//! candidates back until the remote description is in place.

use vstd::prelude::*;
use webrtc::ice_transport::ice_candidate::RTCIceCandidate;

verus! {

/// A candidate that the local ICE agent produced, field by field as the
/// WebRTC stack reports it. `protocol` and `typ` hold the stack's names for
/// them (`udp`, `tcp`; `host`, `srflx`, `prflx`, `relay`).
#[derive(Clone, Debug, PartialEq, Eq)]
pub struct IceCandidate {
    pub stats_id: String,
    pub foundation: String,
    pub priority: u32,
    pub address: String,
    pub protocol: String,
    pub port: u16,
    pub typ: String,
    pub component: u16,
    pub related_address: String,
    pub related_port: u16,
    pub tcp_type: String,
}

/// The mathematical value of an [`IceCandidate`].
pub struct IceCandidateView {
    pub stats_id: Seq<char>,
    pub foundation: Seq<char>,
    pub priority: u32,
    pub address: Seq<char>,
    pub protocol: Seq<char>,
    pub port: u16,
    pub typ: Seq<char>,
    pub component: u16,
    pub related_address: Seq<char>,
    pub related_port: u16,
    pub tcp_type: Seq<char>,
}

impl View for IceCandidate {
    type V = IceCandidateView;

    open spec fn view(&self) -> IceCandidateView {
        IceCandidateView {
            stats_id: self.stats_id@,
            foundation: self.foundation@,
            priority: self.priority,
            address: self.address@,
            protocol: self.protocol@,
            port: self.port,
            typ: self.typ@,
            component: self.component,
            related_address: self.related_address@,
            related_port: self.related_port,
            tcp_type: self.tcp_type@,
        }
    }
}

/// The candidate line under which the WebRTC stack announces a candidate, or
/// `None` for a candidate that it cannot put into a line (an address that is
/// none, a type that it does not know).
pub uninterp spec fn candidate_line(c: IceCandidateView) -> Option<Seq<char>>;

/// Whether the WebRTC stack can work out the priority of a candidate. For a
/// candidate that comes with the priority 0 it computes one, and takes the
/// component from 256 on the way: the component must not be above 256 then.
pub open spec fn has_priority(c: IceCandidateView) -> bool {
    c.priority != 0 || c.component <= 256
}

/// The line under which a candidate is announced: the line that the WebRTC
/// stack gives it, and none for a candidate whose priority the stack cannot
/// work out.
pub open spec fn line_for(c: IceCandidateView) -> Option<Seq<char>> {
    if has_priority(c) {
        candidate_line(c)
    } else {
        None
    }
}

/// Calls `RTCIceCandidate::to_json` of `webrtc` on a candidate with the given
/// fields, and takes the `candidate` member of what it returns.
///
/// Believed: the outcome is the one named [`candidate_line`], which depends
/// on the fields alone. The call is not made on a candidate without a
/// priority whose component is above 256: there the stack's own arithmetic
/// leaves the range of its numbers.
#[verifier::external_body]
fn line_of(c: &IceCandidate) -> (line: Option<String>)
    requires
        has_priority(c@),
    ensures
        line matches Some(l) ==> candidate_line(c@) == Some(l@),
        line is None ==> candidate_line(c@) is None,
{
    let outside = RTCIceCandidate {
        stats_id: c.stats_id.clone(),
        foundation: c.foundation.clone(),
        priority: c.priority,
        address: c.address.clone(),
        protocol: c.protocol.as_str().into(),
        port: c.port,
        typ: c.typ.as_str().into(),
        component: c.component,
        related_address: c.related_address.clone(),
        related_port: c.related_port,
        tcp_type: c.tcp_type.clone(),
    };
    outside.to_json().ok().map(|init| init.candidate)
}

impl IceCandidate {
    /// The line under which this candidate is announced to the peer, if it
    /// has one. A candidate whose priority cannot be worked out has none.
    pub fn line(&self) -> (line: Option<String>)
        ensures
            line matches Some(l) ==> line_for(self@) == Some(l@),
            line is None ==> line_for(self@) is None,
    {
        if self.priority == 0 && self.component > 256 {
            return None;
        }
        line_of(self)
    }
}

/// What is handed to the peer connection for a candidate that the peer
/// announced.
#[derive(Clone, Debug, PartialEq, Eq)]
pub struct CandidateInit {
    pub candidate: String,
    pub sdp_mid: Option<String>,
    pub sdp_mline_index: Option<u16>,
}

/// The mathematical value of a [`CandidateInit`].
pub struct CandidateInitView {
    pub candidate: Seq<char>,
    pub sdp_mid: Option<Seq<char>>,
    pub sdp_mline_index: Option<u16>,
}

impl View for CandidateInit {
    type V = CandidateInitView;

    open spec fn view(&self) -> CandidateInitView {
        CandidateInitView {
            candidate: self.candidate@,
            sdp_mid: match self.sdp_mid {
                Some(mid) => Some(mid@),
                None => None,
            },
            sdp_mline_index: self.sdp_mline_index,
        }
    }
}

/// The init for an announced candidate line: the line itself, an empty media
/// id and the media line index 0.
pub open spec fn init_for(line: Seq<char>) -> CandidateInitView {
    CandidateInitView { candidate: line, sdp_mid: Some(Seq::empty()), sdp_mline_index: Some(0u16) }
}

impl CandidateInit {
    /// The init for the payload of a `candidate` message.
    pub fn from_payload(payload: &str) -> (init: CandidateInit)
        ensures
            init@ == init_for(payload@),
    {
        CandidateInit {
            candidate: payload.to_owned(),
            sdp_mid: Some(String::new()),
            sdp_mline_index: Some(0),
        }
    }
}

} // verus!
