//! Time in the capture pipeline: the presentation time and the duration that
//! a frame is stamped with.

use vstd::prelude::*;

verus! {

/// The milliseconds in a span of `secs` whole seconds and `subsec_millis`
/// milliseconds beyond them.
pub open spec fn span_millis(secs: u64, subsec_millis: u32) -> int {
    secs * 1000 + subsec_millis
}

/// The milliseconds in a span of `secs` whole seconds and `subsec_millis`
/// milliseconds beyond them, or `u64::MAX` for a span that has more.
pub fn millis(secs: u64, subsec_millis: u32) -> (ms: u64)
    ensures
        span_millis(secs, subsec_millis) <= u64::MAX ==> ms == span_millis(secs, subsec_millis),
        span_millis(secs, subsec_millis) > u64::MAX ==> ms == u64::MAX,
{
    match secs.checked_mul(1000) {
        Some(whole) => whole.saturating_add(subsec_millis as u64),
        None => u64::MAX,
    }
}

/// What a frame is stamped with.
#[derive(Clone, Copy, Debug, PartialEq, Eq, Structural)]
pub struct Stamp {
    /// Milliseconds from the start of the capture to the frame.
    pub presentation_ms: u64,
    /// Milliseconds from the frame before to the frame.
    pub duration_ms: u64,
}

/// The clock of a capture: when the capture began, when the last frame came,
/// and the presentation time that frame got. All in milliseconds of one
/// monotonic clock.
#[derive(Clone, Copy, Debug, PartialEq, Eq, Structural)]
pub struct FrameClock {
    pub start: u64,
    pub last: u64,
    pub presentation_ms: u64,
}

/// The clock of a capture that begins at `start`.
pub open spec fn started(start: u64) -> FrameClock {
    FrameClock { start, last: start, presentation_ms: 0 }
}

/// The stamp of a frame that comes at `now`: it is presented as many
/// milliseconds after the start as have passed, but never before the frame
/// that preceded it, and lasts as long as the time since that frame.
pub open spec fn stamp_at(clock: FrameClock, now: u64) -> Stamp {
    let elapsed = if now >= clock.start {
        (now - clock.start) as u64
    } else {
        0u64
    };
    Stamp {
        presentation_ms: if elapsed >= clock.presentation_ms {
            elapsed
        } else {
            clock.presentation_ms
        },
        duration_ms: if now >= clock.last {
            (now - clock.last) as u64
        } else {
            0u64
        },
    }
}

/// The clock after a frame that came at `now`.
pub open spec fn ticked(clock: FrameClock, now: u64) -> FrameClock {
    FrameClock {
        start: clock.start,
        last: now,
        presentation_ms: stamp_at(clock, now).presentation_ms,
    }
}

impl FrameClock {
    /// The clock of a capture that begins at `start`.
    pub fn new(start: u64) -> (clock: FrameClock)
        ensures
            clock == started(start),
    {
        FrameClock { start, last: start, presentation_ms: 0 }
    }

    /// Stamps the frame that comes at `now`.
    pub fn stamp(&mut self, now: u64) -> (stamp: Stamp)
        ensures
            stamp == stamp_at(*old(self), now),
            *final(self) == ticked(*old(self), now),
            stamp.presentation_ms >= old(self).presentation_ms,
    {
        let elapsed = now.saturating_sub(self.start);
        let presentation_ms = if elapsed >= self.presentation_ms {
            elapsed
        } else {
            self.presentation_ms
        };
        let duration_ms = now.saturating_sub(self.last);
        self.last = now;
        self.presentation_ms = presentation_ms;
        Stamp { presentation_ms, duration_ms }
    }
}

} // verus!
