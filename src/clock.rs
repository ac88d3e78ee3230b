//! Frame timing: the time between frames, the time spent unpaused and the
//! frame rate, counted once a second.
use vstd::prelude::*;

verus! {

/// Milliseconds between two frame-rate counts.
pub const FPS_PERIOD_MS: u32 = 1000;

/// The clock of the frame loop, on a millisecond tick counter.
#[derive(Copy, Clone, Debug, PartialEq, Eq, Structural)]
pub struct FrameClock {
    /// Tick count at the start of the previous frame.
    pub prev: u32,
    /// Tick count of the last frame-rate count.
    pub marker: u32,
    /// Frames finished since that count.
    pub frames_since_marker: u32,
    /// Milliseconds spent unpaused.
    pub total: u32,
}

/// What the start of a frame yields.
#[derive(Copy, Clone, Debug, PartialEq, Eq, Structural)]
pub struct FrameStart {
    /// Milliseconds since the previous frame started.
    pub elapsed_ms: u32,
    /// The frames finished in the last period, when a period has passed.
    pub fps: Option<u32>,
}

impl FrameClock {
    pub fn new(now: u32) -> (r: FrameClock)
        ensures
            r == (FrameClock { prev: now, marker: now, frames_since_marker: 0, total: 0 }),
    {
        FrameClock { prev: now, marker: now, frames_since_marker: 0, total: 0 }
    }

    /// Starts a frame at tick `now`. Once a period has passed since the last
    /// count, the frames finished since then are the frame rate and the
    /// count starts again. Time spent paused is not added to the total.
    pub fn begin_frame(&mut self, now: u32, paused: bool) -> (r: FrameStart)
        requires
            old(self).prev <= now,
            paused || old(self).total + (now - old(self).prev) <= u32::MAX,
        ensures
            r.elapsed_ms == now - old(self).prev,
            final(self).prev == now,
            now - old(self).marker >= FPS_PERIOD_MS ==> {
                &&& r.fps == Some(old(self).frames_since_marker)
                &&& final(self).marker == now
                &&& final(self).frames_since_marker == 0
            },
            now - old(self).marker < FPS_PERIOD_MS ==> {
                &&& r.fps is None
                &&& final(self).marker == old(self).marker
                &&& final(self).frames_since_marker == old(self).frames_since_marker
            },
            final(self).total == old(self).total + if paused {
                0
            } else {
                r.elapsed_ms
            },
    {
        let elapsed = now - self.prev;
        let mut fps: Option<u32> = None;
        if now as i64 - self.marker as i64 >= FPS_PERIOD_MS as i64 {
            fps = Some(self.frames_since_marker);
            self.marker = now;
            self.frames_since_marker = 0;
        }
        self.prev = now;
        if !paused {
            self.total = self.total + elapsed;
        }
        FrameStart { elapsed_ms: elapsed, fps }
    }

    /// Counts a finished frame.
    pub fn end_frame(&mut self)
        requires
            old(self).frames_since_marker < u32::MAX,
        ensures
            *final(self) == (FrameClock {
                frames_since_marker: (old(self).frames_since_marker + 1) as u32,
                ..*old(self)
            }),
    {
        self.frames_since_marker = self.frames_since_marker + 1;
    }
}

} // verus!
