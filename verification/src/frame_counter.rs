//! Frame statistics for diagnostics: how many frames were drawn in about a
//! second, and how long one took on average. Nothing is scheduled by them.
use vstd::prelude::*;

verus! {

/// The time after which the counter reports, in nanoseconds.
pub const REPORT_INTERVAL_NANOS: u64 = 1_000_000_000;

/// The frames counted over one interval.
#[derive(Clone, Copy, Debug, PartialEq, Eq, Structural)]
pub struct FrameReport {
    /// Frames counted since the report before.
    pub frames: u32,
    /// Time since the report before, in nanoseconds.
    pub elapsed_nanos: u64,
    /// `elapsed_nanos / frames`, rounded down.
    pub frame_time_nanos: u64,
}

/// Counts frames between reports. Times are nanoseconds on the caller's
/// monotonic clock.
#[derive(Clone, Copy, Debug, PartialEq, Eq, Structural)]
pub struct FrameCounter {
    /// When the counter last reported.
    pub last_printed: u64,
    /// Frames counted since then.
    pub frame_count: u32,
}

impl FrameCounter {
    /// The count after one more frame; it stops at the largest `u32`.
    pub open spec fn counted(self) -> u32 {
        if self.frame_count < u32::MAX {
            (self.frame_count + 1) as u32
        } else {
            u32::MAX
        }
    }

    /// Time from the last report to `now`, zero if `now` is earlier.
    pub open spec fn elapsed(self, now: u64) -> u64 {
        if now >= self.last_printed {
            (now - self.last_printed) as u64
        } else {
            0
        }
    }

    /// A frame at `now` completes an interval.
    pub open spec fn due(self, now: u64) -> bool {
        self.elapsed(now) > REPORT_INTERVAL_NANOS
    }

    /// The report that a frame at `now` gives when it completes an interval.
    pub open spec fn report(self, now: u64) -> FrameReport {
        FrameReport {
            frames: self.counted(),
            elapsed_nanos: self.elapsed(now),
            frame_time_nanos: self.elapsed(now) / (self.counted() as u64),
        }
    }

    /// The counter after a frame at `now`.
    pub open spec fn advanced(self, now: u64) -> FrameCounter {
        if self.due(now) {
            FrameCounter { last_printed: now, frame_count: 0 }
        } else {
            FrameCounter { last_printed: self.last_printed, frame_count: self.counted() }
        }
    }

    /// A counter that starts its first interval at `now`.
    pub fn new(now: u64) -> (r: FrameCounter)
        ensures
            r == (FrameCounter { last_printed: now, frame_count: 0 }),
    {
        FrameCounter { last_printed: now, frame_count: 0 }
    }

    /// Counts a frame drawn at `now`. When more than the report interval has
    /// passed since the last report, the frames since then are reported and
    /// the next interval starts at `now`.
    pub fn update(&mut self, now: u64) -> (r: Option<FrameReport>)
        ensures
            *final(self) == old(self).advanced(now),
            r is Some <==> old(self).due(now),
            r matches Some(report) ==> report == old(self).report(now) && report.frames >= 1,
    {
        let frames: u32 = if self.frame_count < u32::MAX {
            self.frame_count + 1
        } else {
            u32::MAX
        };
        let elapsed: u64 = if now >= self.last_printed {
            now - self.last_printed
        } else {
            0
        };
        if elapsed > REPORT_INTERVAL_NANOS {
            self.last_printed = now;
            self.frame_count = 0;
            Some(
                FrameReport {
                    frames,
                    elapsed_nanos: elapsed,
                    frame_time_nanos: elapsed / (frames as u64),
                },
            )
        } else {
            self.frame_count = frames;
            None
        }
    }
}

} // verus!
