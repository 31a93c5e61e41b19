//! The frame clock: per-frame elapsed time and a smoothed frames-per-second
//! average, computed entirely in integer timer ticks.
//!
//! Time is measured with a monotonic performance counter whose readings are
//! `u64` tick counts at a fixed rate of `freq` ticks per second, so one frame's
//! elapsed time is `elapsed` ticks (`elapsed / freq` seconds) and the
//! instantaneous frame rate is `freq / elapsed` frames per second, rounded
//! down. A frame whose elapsed tick count is zero (the counter is too coarse,
//! or two readings landed on the same tick) contributes nothing to the
//! average: its instantaneous rate is undefined, so that frame is skipped
//! rather than clamped.
//!
//! A documented deviation of this integer model: the per-frame rates and
//! their mean are computed with integer division, so the reported rate
//! rounds down rather than to the nearest integer.

use vstd::prelude::*;

verus! {

/// `a + b`, stopping at `u64::MAX` instead of wrapping. The accumulators
/// below saturate rather than overflow if they are never reset.
pub open spec fn sat_add(a: u64, b: u64) -> u64 {
    if a + b <= u64::MAX {
        (a + b) as u64
    } else {
        u64::MAX
    }
}

/// Accumulates elapsed time and instantaneous frame rates over the current
/// averaging window (nominally one second).
pub struct FpsCounter {
    /// Ticks of the performance counter per second; at least 1.
    pub freq: u64,
    /// The counter reading of the previous frame.
    pub last: u64,
    /// The counter reading of the current frame.
    pub now: u64,
    /// Ticks accumulated in the current averaging window.
    pub time_acc: u64,
    /// Sum of the instantaneous rates (`freq / elapsed`) of the window's frames.
    pub fps_acc: u64,
    /// Number of frames that contributed to `fps_acc`.
    pub fps_count: u64,
}

impl FpsCounter {
    /// A counter is well formed when its tick rate is positive.
    pub open spec fn wf(self) -> bool {
        self.freq >= 1
    }

    /// The elapsed ticks an update at reading `now_ticks` observes: the
    /// distance from the previous reading, or zero if the counter ran
    /// backwards (it is specified to be monotonic, so only a non-ideal
    /// source ever yields zero this way).
    pub open spec fn spec_elapsed(self, now_ticks: u64) -> u64 {
        if now_ticks >= self.now {
            (now_ticks - self.now) as u64
        } else {
            0
        }
    }

    /// The counter after an update at reading `now_ticks`: the reading
    /// window shifts, the elapsed ticks join the time accumulator, and a
    /// frame with a positive elapsed count contributes its instantaneous
    /// rate to the average.
    pub open spec fn spec_updated(self, now_ticks: u64) -> FpsCounter {
        let e = self.spec_elapsed(now_ticks);
        FpsCounter {
            freq: self.freq,
            last: self.now,
            now: now_ticks,
            time_acc: sat_add(self.time_acc, e),
            fps_acc: if e > 0 {
                sat_add(self.fps_acc, (self.freq / e) as u64)
            } else {
                self.fps_acc
            },
            fps_count: if e > 0 {
                sat_add(self.fps_count, 1)
            } else {
                self.fps_count
            },
        }
    }

    /// The smoothed frame rate: the arithmetic mean of the instantaneous
    /// rates accumulated since the last reset.
    pub open spec fn spec_fps(self) -> u64
        recommends
            self.fps_count > 0,
    {
        (self.fps_acc / self.fps_count) as u64
    }

    /// The clock [`FpsCounter::new`] returns: empty accumulators at the
    /// given tick rate and initial reading.
    pub open spec fn spec_new(frequency: u64, now: u64) -> FpsCounter {
        FpsCounter { freq: frequency, last: 0, now, time_acc: 0, fps_acc: 0, fps_count: 0 }
    }

    /// Create a clock that counts `frequency` ticks per second, with `now`
    /// as the initial counter reading and empty accumulators.
    pub fn new(frequency: u64, now: u64) -> (c: FpsCounter)
        requires
            frequency >= 1,
        ensures
            c == Self::spec_new(frequency, now),
    {
        FpsCounter { freq: frequency, last: 0, now, time_acc: 0, fps_acc: 0, fps_count: 0 }
    }

    /// Advance the clock to the counter reading `now_ticks` and return the
    /// elapsed ticks since the previous reading.
    pub fn update(&mut self, now_ticks: u64) -> (elapsed: u64)
        ensures
            elapsed == old(self).spec_elapsed(now_ticks),
            *final(self) == old(self).spec_updated(now_ticks),
    {
        self.last = self.now;
        self.now = now_ticks;
        let elapsed = if now_ticks >= self.last {
            now_ticks - self.last
        } else {
            0
        };
        self.time_acc = self.time_acc.saturating_add(elapsed);
        if elapsed > 0 {
            self.fps_acc = self.fps_acc.saturating_add(self.freq / elapsed);
            self.fps_count = self.fps_count.saturating_add(1);
        }
        elapsed
    }

    /// The ticks accumulated in the current averaging window; one second has
    /// elapsed once this reaches `freq`.
    #[inline]
    pub fn time_acc(&self) -> (t: u64)
        ensures
            t == self.time_acc,
    {
        self.time_acc
    }

    /// The smoothed frame rate over the current window. Must not be called
    /// before any frame has contributed to the average.
    #[inline]
    pub fn fps(&self) -> (f: u64)
        requires
            self.fps_count > 0,
        ensures
            f == self.spec_fps(),
    {
        self.fps_acc / self.fps_count
    }

    /// Close the current averaging window: one second's worth of ticks is
    /// subtracted from the time accumulator — not set to zero, preserving
    /// the sub-second remainder for smoother windowing — and the rate
    /// accumulators are cleared.
    pub fn reset_average(&mut self)
        requires
            old(self).time_acc >= old(self).freq,
        ensures
            final(self).time_acc == old(self).time_acc - old(self).freq,
            final(self).fps_acc == 0,
            final(self).fps_count == 0,
            final(self).freq == old(self).freq,
            final(self).last == old(self).last,
            final(self).now == old(self).now,
    {
        self.time_acc = self.time_acc - self.freq;
        self.fps_acc = 0;
        self.fps_count = 0;
    }
}

/// Frame-rate law: on a clock whose accumulators are empty, after one update
/// that observes a positive elapsed tick count, the smoothed rate equals that
/// single frame's instantaneous rate `freq / elapsed` — the tick analogue of
/// the reciprocal of the elapsed time in seconds.
pub proof fn lemma_fps_first_sample(c: FpsCounter, now_ticks: u64)
    requires
        c.wf(),
        c.fps_acc == 0,
        c.fps_count == 0,
        c.spec_elapsed(now_ticks) > 0,
    ensures
        c.spec_updated(now_ticks).fps_count > 0,
        c.spec_updated(now_ticks).spec_fps() == c.freq / c.spec_elapsed(now_ticks),
{
    let e = c.spec_elapsed(now_ticks);
    assert(c.spec_updated(now_ticks).fps_acc == c.freq / e);
    assert(c.spec_updated(now_ticks).fps_count == 1);
}

} // verus!
