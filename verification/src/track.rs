//! The shared video track and the peer connections it is added to, as far as
//! they are a matter of fixed values.

use vstd::prelude::*;

verus! {

/// A kind of RTCP feedback that a codec is announced with.
#[derive(Clone, Debug, PartialEq, Eq)]
pub struct RtcpFeedback {
    pub typ: String,
    pub parameter: String,
}

/// What the shared video track is made with.
#[derive(Clone, Debug, PartialEq, Eq)]
pub struct TrackDescription {
    pub mime_type: String,
    pub clock_rate: u32,
    pub channels: u16,
    pub sdp_fmtp_line: String,
    pub rtcp_feedback: Vec<RtcpFeedback>,
    pub id: String,
    pub stream_id: String,
}

/// The mathematical value of a [`TrackDescription`]. A feedback is a pair of
/// its type and its parameter.
pub struct TrackDescriptionView {
    pub mime_type: Seq<char>,
    pub clock_rate: u32,
    pub channels: u16,
    pub sdp_fmtp_line: Seq<char>,
    pub rtcp_feedback: Seq<(Seq<char>, Seq<char>)>,
    pub id: Seq<char>,
    pub stream_id: Seq<char>,
}

impl View for TrackDescription {
    type V = TrackDescriptionView;

    open spec fn view(&self) -> TrackDescriptionView {
        TrackDescriptionView {
            mime_type: self.mime_type@,
            clock_rate: self.clock_rate,
            channels: self.channels,
            sdp_fmtp_line: self.sdp_fmtp_line@,
            rtcp_feedback: Seq::new(
                self.rtcp_feedback@.len(),
                |i: int| (self.rtcp_feedback@[i].typ@, self.rtcp_feedback@[i].parameter@),
            ),
            id: self.id@,
            stream_id: self.stream_id@,
        }
    }
}

/// The shared video track: VP8 on a 90 kHz clock, with the feedbacks
/// `goog-remb`, `ccm fir`, `nack` and `nack pli`, under the id `video` in the
/// stream `stream`.
pub open spec fn video_track() -> TrackDescriptionView {
    TrackDescriptionView {
        mime_type: "video/VP8"@,
        clock_rate: 90000,
        channels: 0,
        sdp_fmtp_line: Seq::empty(),
        rtcp_feedback: seq![
            ("goog-remb"@, Seq::empty()),
            ("ccm"@, "fir"@),
            ("nack"@, Seq::empty()),
            ("nack"@, "pli"@),
        ],
        id: "video"@,
        stream_id: "stream"@,
    }
}

/// What the shared video track is made with.
pub fn new_video_track() -> (track: TrackDescription)
    ensures
        track@ == video_track(),
{
    let mut rtcp_feedback: Vec<RtcpFeedback> = Vec::new();
    rtcp_feedback.push(RtcpFeedback { typ: "goog-remb".to_owned(), parameter: String::new() });
    rtcp_feedback.push(RtcpFeedback { typ: "ccm".to_owned(), parameter: "fir".to_owned() });
    rtcp_feedback.push(RtcpFeedback { typ: "nack".to_owned(), parameter: String::new() });
    rtcp_feedback.push(RtcpFeedback { typ: "nack".to_owned(), parameter: "pli".to_owned() });
    let track = TrackDescription {
        mime_type: "video/VP8".to_owned(),
        clock_rate: 90000,
        channels: 0,
        sdp_fmtp_line: String::new(),
        rtcp_feedback,
        id: "video".to_owned(),
        stream_id: "stream".to_owned(),
    };
    assert(track@.rtcp_feedback =~= video_track().rtcp_feedback);
    track
}

/// What a peer connection is made with: the URLs of its one ICE server.
#[derive(Clone, Debug, PartialEq, Eq)]
pub struct PeerConfig {
    pub ice_server_urls: Vec<String>,
}

/// What a peer connection is made with when nothing else is asked for: the
/// STUN server `stun.syncthing.net`, port 3478.
pub fn new_peer_connection() -> (config: PeerConfig)
    ensures
        config.ice_server_urls.deep_view() == seq!["stun:stun.syncthing.net:3478"@],
{
    with_ice_server("stun:stun.syncthing.net:3478")
}

/// What a peer connection is made with when its ICE server is at `url`.
pub fn with_ice_server(url: &str) -> (config: PeerConfig)
    ensures
        config.ice_server_urls.deep_view() == seq![url@],
{
    let mut ice_server_urls: Vec<String> = Vec::new();
    ice_server_urls.push(url.to_owned());
    assert(ice_server_urls.deep_view() =~= seq![url@]);
    PeerConfig { ice_server_urls }
}

} // verus!
