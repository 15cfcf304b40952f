//! What holds of everything a capture pipeline ever asks for: the frames it
//! puts out never go back in time, and it makes one encoder and no more.

use vstd::prelude::*;
use crate::clock::Stamp;
use crate::pipeline::{
    capture_run, capture_step, halted, idle, stamped_frames, still, CaptureActionView,
    CaptureEvent, PipelineView, Stage,
};
use crate::queue::{in_time_order, EncodedFrameView};

verus! {

/// What a list of actions amounts to: the frames put out, in order, the
/// number of encoders made and the number of frames handed to an encoder.
pub struct Output {
    pub frames: Seq<EncodedFrameView>,
    pub encoders: nat,
    pub submitted: nat,
}

/// The output of no action.
pub open spec fn no_output() -> Output {
    Output { frames: Seq::empty(), encoders: 0, submitted: 0 }
}

/// The output of one list of actions followed by another.
pub open spec fn joined(a: Output, b: Output) -> Output {
    Output {
        frames: a.frames + b.frames,
        encoders: a.encoders + b.encoders,
        submitted: a.submitted + b.submitted,
    }
}

/// The output of one action.
pub open spec fn output_of(action: CaptureActionView) -> Output {
    match action {
        CaptureActionView::Enqueue(frame) => Output { frames: seq![frame], ..no_output() },
        CaptureActionView::CreateEncoder(_) => Output { encoders: 1, ..no_output() },
        CaptureActionView::Encode { .. } => Output { submitted: 1, ..no_output() },
        _ => no_output(),
    }
}

/// The output of a list of actions.
pub open spec fn output(actions: Seq<CaptureActionView>) -> Output
    decreases actions.len(),
{
    if actions.len() == 0 {
        no_output()
    } else {
        joined(output(actions.drop_last()), output_of(actions.last()))
    }
}

/// Whether a pipeline has yet to reach the point where it captures.
pub open spec fn before_capture(stage: Stage) -> bool {
    stage == Stage::Idle || stage == Stage::Probing || stage == Stage::Asking || stage
        == Stage::Listing
}

/// What holds of a pipeline and of its output so far, at every moment.
pub open spec fn on_course(s: PipelineView, out: Output) -> bool {
    &&& before_capture(s.stage) ==> out == no_output() && s.stamp is None
    &&& s.stage == Stage::Capturing ==> out.encoders == 1
    &&& out.encoders <= 1
    &&& out.submitted > 0 ==> out.encoders == 1
    &&& in_time_order(out.frames)
    &&& out.frames.len() > 0 ==> out.frames.last().presentation_ms <= s.clock.presentation_ms
    &&& s.stamp matches Some(stamp) ==> stamp.presentation_ms == s.clock.presentation_ms
}

/// Joining with the output of no action changes nothing.
proof fn lemma_joined_empty(a: Output)
    ensures
        joined(a, no_output()) == a,
        joined(no_output(), a) == a,
{
    assert(a.frames + Seq::<EncodedFrameView>::empty() =~= a.frames);
    assert(Seq::<EncodedFrameView>::empty() + a.frames =~= a.frames);
}

/// The output of one list of actions followed by another is the two outputs
/// joined.
proof fn lemma_output_concat(a: Seq<CaptureActionView>, b: Seq<CaptureActionView>)
    ensures
        output(a + b) == joined(output(a), output(b)),
    decreases b.len(),
{
    if b.len() == 0 {
        assert(a + b =~= a);
        lemma_joined_empty(output(a));
    } else {
        assert((a + b).drop_last() =~= a + b.drop_last());
        assert((a + b).last() == b.last());
        lemma_output_concat(a, b.drop_last());
        let x = output(a);
        let y = output(b.drop_last());
        let z = output_of(b.last());
        assert((x.frames + y.frames) + z.frames =~= x.frames + (y.frames + z.frames));
    }
}

/// The output of a list of one action is the output of the action.
proof fn lemma_output_single(action: CaptureActionView)
    ensures
        output(seq![action]) == output_of(action),
{
    let one = seq![action];
    assert(one.drop_last() =~= Seq::<CaptureActionView>::empty());
    assert(output(one.drop_last()) == no_output());
    assert(one.last() == action);
    lemma_joined_empty(output_of(action));
}

/// The frames for some chunks are as many as the chunks, carry the given
/// stamp, and come with no encoder made and no frame submitted.
proof fn lemma_output_stamped(chunks: Seq<Vec<u8>>, stamp: Stamp)
    ensures
        output(stamped_frames(chunks, stamp)).encoders == 0,
        output(stamped_frames(chunks, stamp)).submitted == 0,
        output(stamped_frames(chunks, stamp)).frames.len() == chunks.len(),
        forall|i: int|
            0 <= i < chunks.len() ==> (#[trigger] output(
                stamped_frames(chunks, stamp),
            ).frames[i]).presentation_ms == stamp.presentation_ms,
    decreases chunks.len(),
{
    if chunks.len() > 0 {
        assert(stamped_frames(chunks, stamp).drop_last() =~= stamped_frames(
            chunks.drop_last(),
            stamp,
        ));
        lemma_output_stamped(chunks.drop_last(), stamp);
    }
}

/// Frames with the stamp of the frame encoded last keep the output in time
/// order, whether or not a flush is asked for behind them.
proof fn lemma_chunks_on_course(
    s: PipelineView,
    out: Output,
    chunks: Seq<Vec<u8>>,
    stamp: Stamp,
    tail: Seq<CaptureActionView>,
)
    requires
        on_course(s, out),
        s.stage == Stage::Capturing,
        s.stamp == Some(stamp),
        tail.len() == 0 || tail == seq![CaptureActionView::FlushEncoder],
    ensures
        on_course(s, joined(out, output(stamped_frames(chunks, stamp) + tail))),
{
    let frames = stamped_frames(chunks, stamp);
    lemma_output_concat(frames, tail);
    lemma_output_stamped(chunks, stamp);
    if tail.len() > 0 {
        lemma_output_single(CaptureActionView::FlushEncoder);
    }
    lemma_joined_empty(output(frames));
    assert(output(frames + tail) == output(frames));
    let more = output(frames);
    let all = joined(out, more).frames;
    assert forall|i: int, j: int| 0 <= i <= j < all.len() implies (#[trigger] all[i]).presentation_ms
        <= (#[trigger] all[j]).presentation_ms by {
        if j < out.frames.len() {
            assert(all[i] == out.frames[i] && all[j] == out.frames[j]);
        } else {
            assert(all[j] == more.frames[j - out.frames.len()]);
            if i < out.frames.len() {
                assert(all[i] == out.frames[i]);
                assert(out.frames[i].presentation_ms <= out.frames.last().presentation_ms);
            } else {
                assert(all[i] == more.frames[i - out.frames.len()]);
            }
        }
    }
    if more.frames.len() > 0 {
        assert(all.last() == more.frames[more.frames.len() - 1]);
    } else {
        assert(all =~= out.frames);
    }
}

/// Up to three actions that put out no frame leave the frames as they are.
proof fn lemma_output_few(actions: Seq<CaptureActionView>)
    requires
        actions.len() <= 3,
        forall|i: int|
            0 <= i < actions.len() ==> !(#[trigger] actions[i] is Enqueue),
    ensures
        output(actions).frames == Seq::<EncodedFrameView>::empty(),
        actions.len() <= 1 ==> output(actions) == if actions.len() == 0 {
            no_output()
        } else {
            output_of(actions[0])
        },
        actions.len() == 2 ==> output(actions) == joined(
            output_of(actions[0]),
            output_of(actions[1]),
        ),
        actions.len() == 3 ==> output(actions) == joined(
            joined(output_of(actions[0]), output_of(actions[1])),
            output_of(actions[2]),
        ),
{
    if actions.len() == 1 {
        assert(actions =~= seq![actions[0]]);
        lemma_output_single(actions[0]);
    } else if actions.len() == 2 {
        let a = seq![actions[0]];
        let b = seq![actions[1]];
        assert(actions =~= a + b);
        lemma_output_concat(a, b);
        lemma_output_single(actions[0]);
        lemma_output_single(actions[1]);
        assert(output(actions).frames =~= Seq::<EncodedFrameView>::empty());
    } else if actions.len() == 3 {
        let a = seq![actions[0]];
        let b = seq![actions[1]];
        let c = seq![actions[2]];
        assert(actions =~= a + b + c);
        lemma_output_concat(a + b, c);
        lemma_output_concat(a, b);
        lemma_output_single(actions[0]);
        lemma_output_single(actions[1]);
        lemma_output_single(actions[2]);
        assert(output(actions).frames =~= Seq::<EncodedFrameView>::empty());
    }
}

/// A step keeps a pipeline on course.
proof fn lemma_step_on_course(s: PipelineView, event: CaptureEvent, out: Output)
    requires
        on_course(s, out),
    ensures
        on_course(capture_step(s, event).0, joined(out, output(capture_step(s, event).1))),
{
    let after = capture_step(s, event);
    lemma_joined_empty(out);
    match event {
        CaptureEvent::Encoded(chunks) => {
            if s.stage == Stage::Capturing && s.stamp is Some {
                let tail = if s.flush {
                    seq![CaptureActionView::FlushEncoder]
                } else {
                    Seq::empty()
                };
                lemma_chunks_on_course(s, out, chunks@, s.stamp.unwrap(), tail);
            }
        },
        CaptureEvent::Flushed(chunks) => {
            if s.stage == Stage::Capturing && s.stamp is Some {
                lemma_chunks_on_course(s, out, chunks@, s.stamp.unwrap(), Seq::empty());
                assert(stamped_frames(chunks@, s.stamp.unwrap()) + Seq::<
                    CaptureActionView,
                >::empty() =~= stamped_frames(chunks@, s.stamp.unwrap()));
            }
        },
        _ => {
            lemma_output_few(after.1);
            assert(out.frames + output(after.1).frames =~= out.frames);
        },
    }
}

/// A pipeline is on course after every run from its creation.
proof fn lemma_run_on_course(
    wanted: Seq<char>,
    stride_align: usize,
    flush: bool,
    events: Seq<CaptureEvent>,
)
    ensures
        on_course(
            capture_run(idle(wanted, stride_align, flush), events).0,
            output(capture_run(idle(wanted, stride_align, flush), events).1),
        ),
    decreases events.len(),
{
    if events.len() > 0 {
        let before = capture_run(idle(wanted, stride_align, flush), events.drop_last());
        lemma_run_on_course(wanted, stride_align, flush, events.drop_last());
        lemma_step_on_course(before.0, events.last(), output(before.1));
        lemma_output_concat(before.1, capture_step(before.0, events.last()).1);
    }
}

/// The frames that a pipeline puts out never go back in time: whatever
/// happens to it, the presentation time of a frame is at least that of every
/// frame put out before it.
pub proof fn lemma_presentation_never_falls(
    wanted: Seq<char>,
    stride_align: usize,
    flush: bool,
    events: Seq<CaptureEvent>,
)
    ensures
        in_time_order(output(capture_run(idle(wanted, stride_align, flush), events).1).frames),
{
    lemma_run_on_course(wanted, stride_align, flush, events);
}

/// A pipeline makes one encoder and no more: whatever happens to it, it
/// never asks for a second one, and every frame it hands to an encoder comes
/// after the making of the one.
pub proof fn lemma_one_encoder(
    wanted: Seq<char>,
    stride_align: usize,
    flush: bool,
    events: Seq<CaptureEvent>,
)
    ensures
        output(capture_run(idle(wanted, stride_align, flush), events).1).encoders <= 1,
        output(capture_run(idle(wanted, stride_align, flush), events).1).submitted > 0 ==> output(
            capture_run(idle(wanted, stride_align, flush), events).1,
        ).encoders == 1,
        capture_run(idle(wanted, stride_align, flush), events).0.stage == Stage::Capturing ==> output(
            capture_run(idle(wanted, stride_align, flush), events).1,
        ).encoders == 1,
{
    lemma_run_on_course(wanted, stride_align, flush, events);
}

/// Stopping a pipeline twice leaves it as stopping it once does, and the
/// second stopping asks for nothing.
pub proof fn lemma_stop_idempotent(s: PipelineView)
    ensures
        halted(halted(s).0) == still(halted(s).0),
        capture_step(capture_step(s, CaptureEvent::Stop).0, CaptureEvent::Stop) == still(
            capture_step(s, CaptureEvent::Stop).0,
        ),
{
}

/// A pipeline begins at most once: to one that has begun, whether it still
/// runs or not, the request to begin means nothing.
pub proof fn lemma_begins_once(s: PipelineView)
    requires
        s.stage != Stage::Idle,
    ensures
        capture_step(s, CaptureEvent::Begin) == still(s),
{
}

} // verus!
