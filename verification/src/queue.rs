//! Encoded frames and the queue between the encoder and the shared track.

use vstd::prelude::*;
use std::collections::VecDeque;

verus! {

/// One encoded frame, ready to be written to the shared track.
#[derive(Clone, Debug, PartialEq, Eq)]
pub struct EncodedFrame {
    pub data: Vec<u8>,
    /// Milliseconds from the start of the encoder to the frame.
    pub presentation_ms: u64,
    /// How long the frame is shown, in milliseconds.
    pub duration_ms: u64,
}

/// The mathematical value of an [`EncodedFrame`].
pub struct EncodedFrameView {
    pub data: Seq<u8>,
    pub presentation_ms: u64,
    pub duration_ms: u64,
}

impl View for EncodedFrame {
    type V = EncodedFrameView;

    open spec fn view(&self) -> EncodedFrameView {
        EncodedFrameView {
            data: self.data@,
            presentation_ms: self.presentation_ms,
            duration_ms: self.duration_ms,
        }
    }
}

impl DeepView for EncodedFrame {
    type V = EncodedFrameView;

    open spec fn deep_view(&self) -> EncodedFrameView {
        self@
    }
}

/// The view of an optional frame.
pub open spec fn frame_view(f: Option<EncodedFrame>) -> Option<EncodedFrameView> {
    match f {
        Some(f) => Some(f@),
        None => None,
    }
}

/// A queue of encoded frames that holds a limited number of them. A frame
/// that comes when the queue is full pushes the oldest one out.
#[derive(Debug)]
pub struct BroadcastQueue {
    frames: VecDeque<EncodedFrame>,
    capacity: usize,
}

/// The mathematical value of a [`BroadcastQueue`]: the frames it holds,
/// oldest first, and how many it may hold.
pub struct QueueView {
    pub frames: Seq<EncodedFrameView>,
    pub capacity: nat,
}

impl QueueView {
    /// A queue holds at least one frame and never more than its capacity.
    pub open spec fn wf(self) -> bool {
        1 <= self.capacity && self.frames.len() <= self.capacity
    }
}

/// Whether a frame has to leave a queue for another to come in.
pub open spec fn full(q: QueueView) -> bool {
    q.frames.len() >= q.capacity && q.frames.len() > 0
}

/// The frames of a queue after `frame` came.
pub open spec fn pushed(q: QueueView, frame: EncodedFrameView) -> Seq<EncodedFrameView> {
    if full(q) {
        q.frames.drop_first().push(frame)
    } else {
        q.frames.push(frame)
    }
}

/// The frame that `pushed` leaves out, if it leaves one out.
pub open spec fn pushed_out(q: QueueView) -> Option<EncodedFrameView> {
    if full(q) {
        Some(q.frames.first())
    } else {
        None
    }
}

/// Whether presentation times never fall from one frame to the next.
pub open spec fn in_time_order(frames: Seq<EncodedFrameView>) -> bool {
    forall|i: int, j: int|
        0 <= i <= j < frames.len() ==> (#[trigger] frames[i]).presentation_ms <= (
        #[trigger] frames[j]).presentation_ms
}

impl View for BroadcastQueue {
    type V = QueueView;

    closed spec fn view(&self) -> QueueView {
        QueueView {
            frames: Seq::new(self.frames@.len(), |i: int| self.frames@[i]@),
            capacity: self.capacity as nat,
        }
    }
}

impl BroadcastQueue {
    /// An empty queue for `capacity` frames; for one frame if `capacity` is 0.
    pub fn new(capacity: usize) -> (q: BroadcastQueue)
        ensures
            q@.wf(),
            q@.frames.len() == 0,
            q@.capacity == if capacity == 0 { 1 } else { capacity as nat },
    {
        let capacity = if capacity == 0 { 1 } else { capacity };
        BroadcastQueue { frames: VecDeque::new(), capacity }
    }

    /// How many frames the queue holds.
    pub fn len(&self) -> (n: usize)
        ensures
            n == self@.frames.len(),
    {
        self.frames.len()
    }

    /// Whether the queue holds no frame.
    pub fn is_empty(&self) -> (empty: bool)
        ensures
            empty == (self@.frames.len() == 0),
    {
        self.frames.len() == 0
    }

    /// How many frames the queue may hold.
    pub fn capacity(&self) -> (n: usize)
        ensures
            n == self@.capacity,
    {
        self.capacity
    }

    /// Puts a frame at the end of the queue. If the queue is full, the oldest
    /// frame leaves it and is returned.
    pub fn push(&mut self, frame: EncodedFrame) -> (dropped: Option<EncodedFrame>)
        ensures
            old(self)@.wf() ==> final(self)@.wf(),
            final(self)@.capacity == old(self)@.capacity,
            final(self)@.frames == pushed(old(self)@, frame@),
            frame_view(dropped) == pushed_out(old(self)@),
    {
        let dropped = if self.frames.len() >= self.capacity {
            self.frames.pop_front()
        } else {
            None
        };
        self.frames.push_back(frame);
        assert(self@.frames =~= pushed(old(self)@, frame@));
        dropped
    }

    /// Takes the oldest frame out of the queue.
    pub fn pop(&mut self) -> (frame: Option<EncodedFrame>)
        ensures
            old(self)@.wf() ==> final(self)@.wf(),
            final(self)@.capacity == old(self)@.capacity,
            match frame {
                Some(f) => old(self)@.frames.len() > 0 && f@ == old(self)@.frames.first()
                    && final(self)@.frames == old(self)@.frames.drop_first(),
                None => old(self)@.frames.len() == 0 && final(self)@.frames == old(self)@.frames,
            },
    {
        let frame = self.frames.pop_front();
        assert(frame is Some ==> self@.frames =~= old(self)@.frames.drop_first());
        assert(frame is None ==> self@.frames =~= old(self)@.frames);
        frame
    }
}

/// Frames leave a queue in the order in which they came: if the frames in a
/// queue are in time order and a frame comes that is not presented before
/// the newest of them, the frames are in time order afterwards, whether or
/// not one had to leave.
pub proof fn lemma_push_keeps_time_order(q: QueueView, frame: EncodedFrameView)
    requires
        q.wf(),
        in_time_order(q.frames),
        q.frames.len() > 0 ==> q.frames.last().presentation_ms <= frame.presentation_ms,
    ensures
        in_time_order(pushed(q, frame)),
{
    let after = pushed(q, frame);
    assert forall|i: int, j: int| 0 <= i <= j < after.len() implies (#[trigger] after[i]).presentation_ms
        <= (#[trigger] after[j]).presentation_ms by {
        if q.frames.len() > 0 {
            let last = q.frames.len() - 1;
            if q.frames.len() >= q.capacity {
                if j < after.len() - 1 {
                    assert(after[i] == q.frames[i + 1] && after[j] == q.frames[j + 1]);
                } else if i < after.len() - 1 {
                    assert(after[i] == q.frames[i + 1]);
                    assert(q.frames[i + 1].presentation_ms <= q.frames[last].presentation_ms);
                }
            } else {
                if j < after.len() - 1 {
                    assert(after[i] == q.frames[i] && after[j] == q.frames[j]);
                } else if i < after.len() - 1 {
                    assert(after[i] == q.frames[i]);
                    assert(q.frames[i].presentation_ms <= q.frames[last].presentation_ms);
                }
            }
        }
    }
}

} // verus!
