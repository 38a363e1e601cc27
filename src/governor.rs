use vstd::prelude::*;

use crate::perf::{elapsed, later_by, SECOND_US};

verus! {

/// Caps how many frames are produced in a one-second window that starts at
/// the window's first frame. Instants are microseconds since a fixed origin.
#[derive(Clone, Copy, Debug, PartialEq, Eq, Structural)]
pub struct FrameGovernor {
    /// Frames allowed per window.
    pub cap: u32,
    /// Start of the current window; none before the first frame.
    pub window_start: Option<u64>,
    /// Frames produced in the current window.
    pub frames: u32,
}

/// Start of the window that a frame at `now` falls in.
pub open spec fn window_after(g: FrameGovernor, now: u64) -> u64 {
    match g.window_start {
        Some(start) => if elapsed(now, start) >= SECOND_US {
            now
        } else {
            start
        },
        None => now,
    }
}

/// Frames of that window once the frame at `now` is counted.
pub open spec fn frames_after(g: FrameGovernor, now: u64) -> u32 {
    match g.window_start {
        Some(start) => if elapsed(now, start) >= SECOND_US {
            1
        } else if g.frames == u32::MAX {
            u32::MAX
        } else {
            (g.frames + 1) as u32
        },
        None => 1,
    }
}

/// The governor after a frame at `now`.
pub open spec fn governor_after(g: FrameGovernor, now: u64) -> FrameGovernor {
    FrameGovernor {
        cap: g.cap,
        window_start: Some(window_after(g, now)),
        frames: frames_after(g, now),
    }
}

/// The wake instant to schedule after a frame at `now`: the end of the
/// window, when this frame is the one that reaches the cap.
pub open spec fn wake_after(g: FrameGovernor, now: u64) -> Option<u64> {
    if frames_after(g, now) == g.cap {
        Some(later_by(window_after(g, now), SECOND_US))
    } else {
        None
    }
}

impl FrameGovernor {
    /// A governor allowing `cap` frames per second, before any frame.
    pub fn new(cap: u32) -> (r: FrameGovernor)
        ensures
            r == (FrameGovernor { cap, window_start: None, frames: 0 }),
    {
        FrameGovernor { cap, window_start: None, frames: 0 }
    }

    /// Counts a frame produced at `now`. When it is the frame that reaches
    /// the cap within its window, the runner is to be held until the window
    /// ends, and that instant is returned.
    pub fn on_frame(&mut self, now: u64) -> (r: Option<u64>)
        ensures
            *final(self) == governor_after(*old(self), now),
            r == wake_after(*old(self), now),
    {
        match self.window_start {
            Some(start) => {
                let since = if now >= start {
                    now - start
                } else {
                    0
                };
                if since >= SECOND_US {
                    self.window_start = Some(now);
                    self.frames = 1;
                } else if self.frames < u32::MAX {
                    self.frames = self.frames + 1;
                }
            },
            None => {
                self.window_start = Some(now);
                self.frames = 1;
            },
        }
        if self.frames == self.cap {
            let start = match self.window_start {
                Some(s) => s,
                None => now,
            };
            if start > u64::MAX - SECOND_US {
                Some(u64::MAX)
            } else {
                Some(start + SECOND_US)
            }
        } else {
            None
        }
    }
}

/// A wake instant is never before the end of the window it limits: with
/// room on the clock, it is exactly one second after the window's start,
/// so at least one second after the window's first frame.
pub proof fn lemma_wake_not_early(g: FrameGovernor, now: u64)
    ensures
        wake_after(g, now) matches Some(w) ==> w >= window_after(g, now),
        wake_after(g, now) matches Some(w) ==> window_after(g, now) as int + SECOND_US as int
            <= u64::MAX ==> w == window_after(g, now) + SECOND_US,
{
}

/// Once a frame has reached the cap, the further frames of the same window
/// schedule no second wake.
pub proof fn lemma_one_wake_per_window(g: FrameGovernor, now: u64, later: u64)
    requires
        g.cap < u32::MAX,
        wake_after(g, now) is Some,
        later >= now,
        elapsed(later, window_after(g, now)) < SECOND_US,
    ensures
        wake_after(governor_after(g, now), later) is None,
        window_after(governor_after(g, now), later) == window_after(g, now),
{
}

} // verus!
