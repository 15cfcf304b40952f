//! The capture pipeline: from the permission to capture, over the choice of a
//! window and the one encoder of a capture, to the stamped frames that go to
//! the shared track.
//!
//! Like a session, the pipeline decides and performs nothing: it is told what
//! happened and says what to do next.

use vstd::prelude::*;
use crate::clock::{stamp_at, started, ticked, FrameClock, Stamp};
use crate::queue::{EncodedFrame, EncodedFrameView};
use crate::target::{first_wanted, select_window, WindowInfo};

verus! {

/// How far a pipeline has come.
#[derive(Clone, Copy, Debug, PartialEq, Eq, Structural)]
pub enum Stage {
    /// Not begun.
    Idle,
    /// Finding out whether capturing is permitted.
    Probing,
    /// Asking the user to permit capturing.
    Asking,
    /// Waiting for the list of windows.
    Listing,
    Capturing,
    Stopped,
    /// Capturing could not begin: it was not permitted, or no window was
    /// found.
    Failed,
}

/// The trade of speed for quality that an encoder makes.
#[derive(Clone, Copy, Debug, PartialEq, Eq, Structural)]
pub enum Quality {
    Best,
    Balanced,
    Low,
}

/// A video codec.
#[derive(Clone, Copy, Debug, PartialEq, Eq, Structural)]
pub enum Codec {
    Vp8,
    Vp9,
}

/// What an encoder is made with.
#[derive(Clone, Copy, Debug, PartialEq, Eq, Structural)]
pub struct EncoderConfig {
    pub width: u32,
    pub height: u32,
    pub quality: Quality,
    pub codec: Codec,
    /// Frames from one key frame to the next, if that is fixed.
    pub keyframe_interval: Option<usize>,
}

/// The encoder of a capture of a window of the given size: VP8, balanced,
/// with no fixed distance between key frames.
pub open spec fn encoder_for(width: u32, height: u32) -> EncoderConfig {
    EncoderConfig {
        width,
        height,
        quality: Quality::Balanced,
        codec: Codec::Vp8,
        keyframe_interval: None,
    }
}

/// Something that happened to a pipeline.
#[derive(Clone, Debug, PartialEq, Eq)]
pub enum CaptureEvent {
    /// A session asked for the capture to begin.
    Begin,
    /// It was found out whether capturing is permitted.
    AccessProbed(bool),
    /// The user answered the request to permit capturing.
    AccessAnswered(bool),
    /// The windows on screen, desktop windows aside, were listed at `now_ms`.
    Windows { windows: Vec<WindowInfo>, now_ms: u64 },
    /// A raw frame arrived at `now_ms`: its pixels, each as blue, green, red
    /// and alpha, row by row.
    Frame { pixels: Vec<[u8; 4]>, width: u32, height: u32, now_ms: u64 },
    /// The encoder delivered encoded chunks for the frame it was given last.
    Encoded(Vec<Vec<u8>>),
    /// The encoder failed on the frame it was given last.
    EncodeFailed,
    /// The encoder, flushed, delivered the chunks it had held back.
    Flushed(Vec<Vec<u8>>),
    /// The encoder could not be flushed.
    FlushFailed,
    /// The capture reported an error in place of a frame.
    CaptureFailed,
    /// The pipeline is to stop.
    Stop,
}

/// Something a pipeline asks its owner to do.
#[derive(Clone, Debug, PartialEq, Eq)]
pub enum CaptureAction {
    ProbeAccess,
    RequestAccess,
    /// List the windows on screen, desktop windows aside.
    ListWindows,
    /// Set up a capture of the listed window at `window`, in the pixel format
    /// that the host prefers.
    Configure { window: usize, width: u32, height: u32 },
    CreateEncoder(EncoderConfig),
    StartStream,
    /// Turn the pixels into planar YUV and hand them to the encoder.
    Encode { bgra: Vec<u8>, width: u32, height: u32, presentation_ms: u64, stride_align: usize },
    /// Put an encoded frame into the queue for the shared track.
    Enqueue(EncodedFrame),
    /// Have the encoder give out the frames it holds back.
    FlushEncoder,
    StopStream,
    DropEncoder,
}

/// The mathematical value of a [`CaptureAction`].
pub enum CaptureActionView {
    ProbeAccess,
    RequestAccess,
    ListWindows,
    Configure { window: usize, width: u32, height: u32 },
    CreateEncoder(EncoderConfig),
    StartStream,
    Encode { bgra: Seq<u8>, width: u32, height: u32, presentation_ms: u64, stride_align: usize },
    Enqueue(EncodedFrameView),
    FlushEncoder,
    StopStream,
    DropEncoder,
}

impl View for CaptureAction {
    type V = CaptureActionView;

    open spec fn view(&self) -> CaptureActionView {
        match self {
            CaptureAction::ProbeAccess => CaptureActionView::ProbeAccess,
            CaptureAction::RequestAccess => CaptureActionView::RequestAccess,
            CaptureAction::ListWindows => CaptureActionView::ListWindows,
            CaptureAction::Configure { window, width, height } => CaptureActionView::Configure {
                window: *window,
                width: *width,
                height: *height,
            },
            CaptureAction::CreateEncoder(config) => CaptureActionView::CreateEncoder(*config),
            CaptureAction::StartStream => CaptureActionView::StartStream,
            CaptureAction::Encode { bgra, width, height, presentation_ms, stride_align } =>
                CaptureActionView::Encode {
                bgra: bgra@,
                width: *width,
                height: *height,
                presentation_ms: *presentation_ms,
                stride_align: *stride_align,
            },
            CaptureAction::Enqueue(frame) => CaptureActionView::Enqueue(frame@),
            CaptureAction::FlushEncoder => CaptureActionView::FlushEncoder,
            CaptureAction::StopStream => CaptureActionView::StopStream,
            CaptureAction::DropEncoder => CaptureActionView::DropEncoder,
        }
    }
}

impl DeepView for CaptureAction {
    type V = CaptureActionView;

    open spec fn deep_view(&self) -> CaptureActionView {
        self@
    }
}

/// A capture pipeline.
#[derive(Debug)]
pub struct Pipeline {
    stage: Stage,
    wanted: String,
    stride_align: usize,
    flush: bool,
    clock: FrameClock,
    stamp: Option<Stamp>,
    failures: u8,
}

/// The mathematical value of a [`Pipeline`].
pub struct PipelineView {
    pub stage: Stage,
    /// What the identifier of the application to capture has to hold.
    pub wanted: Seq<char>,
    /// The alignment of rows that the encoder is given frames with.
    pub stride_align: usize,
    /// Whether the encoder is flushed after every frame.
    pub flush: bool,
    pub clock: FrameClock,
    /// The stamp of the frame that was handed to the encoder last.
    pub stamp: Option<Stamp>,
    /// How many errors the capture reported since the last frame.
    pub failures: u8,
}

impl View for Pipeline {
    type V = PipelineView;

    closed spec fn view(&self) -> PipelineView {
        PipelineView {
            stage: self.stage,
            wanted: self.wanted@,
            stride_align: self.stride_align,
            flush: self.flush,
            clock: self.clock,
            stamp: self.stamp,
            failures: self.failures,
        }
    }
}

/// A result of a step: the pipeline after it and what it asks for.
pub type Turn = (PipelineView, Seq<CaptureActionView>);

/// A pipeline that has not begun.
pub open spec fn idle(wanted: Seq<char>, stride_align: usize, flush: bool) -> PipelineView {
    PipelineView {
        stage: Stage::Idle,
        wanted,
        stride_align,
        flush,
        clock: started(0),
        stamp: None,
        failures: 0,
    }
}

/// The bytes of some pixels, pixel after pixel, four bytes each.
pub open spec fn flattened(pixels: Seq<[u8; 4]>) -> Seq<u8> {
    Seq::new(4 * pixels.len(), |i: int| pixels[i / 4]@[i % 4])
}

/// The frames for the chunks that the encoder delivered, in their order,
/// every one with the given stamp.
pub open spec fn stamped_frames(chunks: Seq<Vec<u8>>, stamp: Stamp) -> Seq<CaptureActionView> {
    Seq::new(
        chunks.len(),
        |i: int|
            CaptureActionView::Enqueue(
                EncodedFrameView {
                    data: chunks[i]@,
                    presentation_ms: stamp.presentation_ms,
                    duration_ms: stamp.duration_ms,
                },
            ),
    )
}

/// The encoder delivered chunks for the frame with the given stamp: each
/// becomes a frame for the shared track. A pipeline that flushes then has
/// the encoder flushed.
pub open spec fn chunks_encoded(s: PipelineView, chunks: Seq<Vec<u8>>, stamp: Stamp) -> Turn {
    (
        s,
        stamped_frames(chunks, stamp) + if s.flush {
            seq![CaptureActionView::FlushEncoder]
        } else {
            Seq::empty()
        },
    )
}

/// The step that does nothing.
pub open spec fn still(s: PipelineView) -> Turn {
    (s, Seq::empty())
}

/// Stopping: a capture that runs is ended and its encoder dropped; a
/// pipeline that does not capture just never will.
pub open spec fn halted(s: PipelineView) -> Turn {
    match s.stage {
        Stage::Capturing => (
            PipelineView { stage: Stage::Stopped, ..s },
            seq![CaptureActionView::StopStream, CaptureActionView::DropEncoder],
        ),
        Stage::Stopped => still(s),
        Stage::Failed => still(s),
        _ => (PipelineView { stage: Stage::Stopped, ..s }, Seq::empty()),
    }
}

/// The windows were listed: the first wanted one is set up for capture, the
/// one encoder of the capture is made for its size, and the stream begins.
/// Without a wanted window the pipeline fails.
pub open spec fn windows_listed(s: PipelineView, windows: Seq<WindowInfo>, now_ms: u64) -> Turn {
    match first_wanted(windows, s.wanted) {
        Some(at) => (
            PipelineView { stage: Stage::Capturing, clock: started(now_ms), ..s },
            seq![
                CaptureActionView::Configure {
                    window: at as usize,
                    width: windows[at].width,
                    height: windows[at].height,
                },
                CaptureActionView::CreateEncoder(
                    encoder_for(windows[at].width, windows[at].height),
                ),
                CaptureActionView::StartStream,
            ],
        ),
        None => (PipelineView { stage: Stage::Failed, ..s }, Seq::empty()),
    }
}

/// A raw frame arrived: it is stamped and handed to the encoder.
pub open spec fn frame_arrived(
    s: PipelineView,
    pixels: Seq<[u8; 4]>,
    width: u32,
    height: u32,
    now_ms: u64,
) -> Turn {
    (
        PipelineView {
            clock: ticked(s.clock, now_ms),
            stamp: Some(stamp_at(s.clock, now_ms)),
            failures: 0,
            ..s
        },
        seq![
            CaptureActionView::Encode {
                bgra: flattened(pixels),
                width,
                height,
                presentation_ms: stamp_at(s.clock, now_ms).presentation_ms,
                stride_align: s.stride_align,
            },
        ],
    )
}

/// The capture reported an error: the first one is passed over, the second
/// in a row stops the pipeline.
pub open spec fn capture_failed(s: PipelineView) -> Turn {
    if s.failures >= 1 {
        halted(s)
    } else {
        (PipelineView { failures: 1, ..s }, Seq::empty())
    }
}

/// What an event does to a pipeline.
pub open spec fn capture_step(s: PipelineView, event: CaptureEvent) -> Turn {
    match event {
        CaptureEvent::Begin => if s.stage == Stage::Idle {
            (PipelineView { stage: Stage::Probing, ..s }, seq![CaptureActionView::ProbeAccess])
        } else {
            still(s)
        },
        CaptureEvent::AccessProbed(granted) => if s.stage != Stage::Probing {
            still(s)
        } else if granted {
            (PipelineView { stage: Stage::Listing, ..s }, seq![CaptureActionView::ListWindows])
        } else {
            (PipelineView { stage: Stage::Asking, ..s }, seq![CaptureActionView::RequestAccess])
        },
        CaptureEvent::AccessAnswered(granted) => if s.stage != Stage::Asking {
            still(s)
        } else if granted {
            (PipelineView { stage: Stage::Listing, ..s }, seq![CaptureActionView::ListWindows])
        } else {
            (PipelineView { stage: Stage::Failed, ..s }, Seq::empty())
        },
        CaptureEvent::Windows { windows, now_ms } => if s.stage == Stage::Listing {
            windows_listed(s, windows@, now_ms)
        } else {
            still(s)
        },
        CaptureEvent::Frame { pixels, width, height, now_ms } => if s.stage == Stage::Capturing {
            frame_arrived(s, pixels@, width, height, now_ms)
        } else {
            still(s)
        },
        CaptureEvent::Encoded(chunks) => match s.stamp {
            Some(stamp) => if s.stage == Stage::Capturing {
                chunks_encoded(s, chunks@, stamp)
            } else {
                still(s)
            },
            None => still(s),
        },
        CaptureEvent::EncodeFailed => still(s),
        CaptureEvent::Flushed(chunks) => match s.stamp {
            Some(stamp) => if s.stage == Stage::Capturing {
                (s, stamped_frames(chunks@, stamp))
            } else {
                still(s)
            },
            None => still(s),
        },
        CaptureEvent::FlushFailed => still(s),
        CaptureEvent::CaptureFailed => if s.stage == Stage::Capturing {
            capture_failed(s)
        } else {
            still(s)
        },
        CaptureEvent::Stop => halted(s),
    }
}

/// What a sequence of events does to a pipeline: the pipeline after the last
/// one, and all that was asked for on the way, in order.
pub open spec fn capture_run(s: PipelineView, events: Seq<CaptureEvent>) -> Turn
    decreases events.len(),
{
    if events.len() == 0 {
        still(s)
    } else {
        let before = capture_run(s, events.drop_last());
        let last = capture_step(before.0, events.last());
        (last.0, before.1 + last.1)
    }
}

/// Appends one action to a list of actions.
fn ask(actions: &mut Vec<CaptureAction>, action: CaptureAction)
    ensures
        final(actions).deep_view() == old(actions).deep_view().push(action@),
{
    actions.push(action);
    assert(actions.deep_view() =~= old(actions).deep_view().push(action@));
}

/// No action at all.
fn none() -> (actions: Vec<CaptureAction>)
    ensures
        actions.deep_view() == Seq::<CaptureActionView>::empty(),
{
    let actions: Vec<CaptureAction> = Vec::new();
    assert(actions.deep_view() =~= Seq::<CaptureActionView>::empty());
    actions
}

/// One action.
fn just(action: CaptureAction) -> (actions: Vec<CaptureAction>)
    ensures
        actions.deep_view() == seq![action@],
{
    let mut actions = none();
    ask(&mut actions, action);
    assert(actions.deep_view() =~= seq![action@]);
    actions
}

/// The bytes of the pixels, pixel after pixel: blue, green, red, alpha.
pub fn flatten(pixels: &Vec<[u8; 4]>) -> (bytes: Vec<u8>)
    ensures
        bytes@ == flattened(pixels@),
{
    let mut bytes: Vec<u8> = Vec::new();
    let mut i: usize = 0;
    while i < pixels.len()
        invariant
            i <= pixels.len(),
            bytes@.len() == 4 * i,
            forall|k: int| 0 <= k < 4 * i ==> bytes@[k] == pixels@[k / 4]@[k % 4],
        decreases pixels.len() - i,
    {
        let pixel = &pixels[i];
        bytes.push(pixel[0]);
        bytes.push(pixel[1]);
        bytes.push(pixel[2]);
        bytes.push(pixel[3]);
        i += 1;
    }
    assert(bytes@ =~= flattened(pixels@));
    bytes
}

impl Pipeline {
    /// A pipeline that has not begun. It will capture the first window whose
    /// application identifier holds `wanted`, hand frames to the encoder with
    /// rows aligned to `stride_align`, and have the encoder flushed after
    /// every frame if `flush` says so.
    pub fn new(wanted: &str, stride_align: usize, flush: bool) -> (p: Pipeline)
        ensures
            p@ == idle(wanted@, stride_align, flush),
    {
        Pipeline {
            stage: Stage::Idle,
            wanted: wanted.to_owned(),
            stride_align,
            flush,
            clock: FrameClock::new(0),
            stamp: None,
            failures: 0,
        }
    }

    /// How far the pipeline has come.
    pub fn stage(&self) -> (stage: Stage)
        ensures
            stage == self@.stage,
    {
        self.stage
    }

    /// Stops the pipeline.
    fn halt(&mut self) -> (actions: Vec<CaptureAction>)
        ensures
            (final(self)@, actions.deep_view()) == halted(old(self)@),
    {
        match self.stage {
            Stage::Capturing => {
                self.stage = Stage::Stopped;
                let mut actions = just(CaptureAction::StopStream);
                ask(&mut actions, CaptureAction::DropEncoder);
                assert(actions.deep_view() =~= halted(old(self)@).1);
                actions
            },
            Stage::Stopped => none(),
            Stage::Failed => none(),
            _ => {
                self.stage = Stage::Stopped;
                none()
            },
        }
    }

    /// Takes the list of windows.
    fn choose_window(&mut self, windows: &Vec<WindowInfo>, now_ms: u64) -> (actions: Vec<
        CaptureAction,
    >)
        ensures
            (final(self)@, actions.deep_view()) == windows_listed(old(self)@, windows@, now_ms),
    {
        match select_window(windows, self.wanted.as_str()) {
            Some(at) => {
                let width = windows[at].width;
                let height = windows[at].height;
                self.stage = Stage::Capturing;
                self.clock = FrameClock::new(now_ms);
                let mut actions = just(CaptureAction::Configure { window: at, width, height });
                ask(
                    &mut actions,
                    CaptureAction::CreateEncoder(
                        EncoderConfig {
                            width,
                            height,
                            quality: Quality::Balanced,
                            codec: Codec::Vp8,
                            keyframe_interval: None,
                        },
                    ),
                );
                ask(&mut actions, CaptureAction::StartStream);
                assert(actions.deep_view() =~= windows_listed(old(self)@, windows@, now_ms).1);
                actions
            },
            None => {
                self.stage = Stage::Failed;
                none()
            },
        }
    }

    /// Stamps the chunks that the encoder delivered.
    fn stamp_chunks(chunks: Vec<Vec<u8>>, stamp: Stamp) -> (actions: Vec<CaptureAction>)
        ensures
            actions.deep_view() == stamped_frames(chunks@, stamp),
    {
        let mut chunks = chunks;
        let ghost all = chunks@;
        let total: usize = chunks.len();
        let mut actions = none();
        let mut done: usize = 0;
        while chunks.len() > 0
            invariant
                all.len() == total,
                done + chunks.len() == all.len(),
                chunks@ == all.skip(done as int),
                actions.deep_view() == stamped_frames(all.take(done as int), stamp),
            decreases chunks.len(),
        {
            let data = chunks.remove(0);
            assert(data == all[done as int]);
            assert(chunks@ =~= all.skip(done as int + 1));
            ask(
                &mut actions,
                CaptureAction::Enqueue(
                    EncodedFrame {
                        data,
                        presentation_ms: stamp.presentation_ms,
                        duration_ms: stamp.duration_ms,
                    },
                ),
            );
            assert(actions.deep_view() =~= stamped_frames(all.take(done as int + 1), stamp));
            done += 1;
        }
        assert(all.take(done as int) =~= all);
        actions
    }

    /// Takes an event and says what has to be done about it.
    pub fn handle(&mut self, event: CaptureEvent) -> (actions: Vec<CaptureAction>)
        ensures
            (final(self)@, actions.deep_view()) == capture_step(old(self)@, event),
    {
        match event {
            CaptureEvent::Begin => {
                if let Stage::Idle = self.stage {
                    self.stage = Stage::Probing;
                    just(CaptureAction::ProbeAccess)
                } else {
                    none()
                }
            },
            CaptureEvent::AccessProbed(granted) => {
                if let Stage::Probing = self.stage {
                    if granted {
                        self.stage = Stage::Listing;
                        just(CaptureAction::ListWindows)
                    } else {
                        self.stage = Stage::Asking;
                        just(CaptureAction::RequestAccess)
                    }
                } else {
                    none()
                }
            },
            CaptureEvent::AccessAnswered(granted) => {
                if let Stage::Asking = self.stage {
                    if granted {
                        self.stage = Stage::Listing;
                        just(CaptureAction::ListWindows)
                    } else {
                        self.stage = Stage::Failed;
                        none()
                    }
                } else {
                    none()
                }
            },
            CaptureEvent::Windows { windows, now_ms } => {
                if let Stage::Listing = self.stage {
                    self.choose_window(&windows, now_ms)
                } else {
                    none()
                }
            },
            CaptureEvent::Frame { pixels, width, height, now_ms } => {
                if let Stage::Capturing = self.stage {
                    let stamp = self.clock.stamp(now_ms);
                    self.stamp = Some(stamp);
                    self.failures = 0;
                    just(
                        CaptureAction::Encode {
                            bgra: flatten(&pixels),
                            width,
                            height,
                            presentation_ms: stamp.presentation_ms,
                            stride_align: self.stride_align,
                        },
                    )
                } else {
                    none()
                }
            },
            CaptureEvent::Encoded(chunks) => {
                match self.stamp {
                    Some(stamp) => {
                        if let Stage::Capturing = self.stage {
                            let mut actions = Pipeline::stamp_chunks(chunks, stamp);
                            if self.flush {
                                ask(&mut actions, CaptureAction::FlushEncoder);
                            }
                            assert(actions.deep_view() =~= chunks_encoded(
                                old(self)@,
                                chunks@,
                                stamp,
                            ).1);
                            actions
                        } else {
                            none()
                        }
                    },
                    None => none(),
                }
            },
            CaptureEvent::EncodeFailed => none(),
            CaptureEvent::Flushed(chunks) => {
                match self.stamp {
                    Some(stamp) => {
                        if let Stage::Capturing = self.stage {
                            Pipeline::stamp_chunks(chunks, stamp)
                        } else {
                            none()
                        }
                    },
                    None => none(),
                }
            },
            CaptureEvent::FlushFailed => none(),
            CaptureEvent::CaptureFailed => {
                if let Stage::Capturing = self.stage {
                    if self.failures >= 1 {
                        self.halt()
                    } else {
                        self.failures = 1;
                        none()
                    }
                } else {
                    none()
                }
            },
            CaptureEvent::Stop => self.halt(),
        }
    }
}

} // verus!
