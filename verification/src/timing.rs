//! Frame pacing.
//!
//! A frame timer owns the timestamp of the last frame and a per-frame time
//! budget derived from a requested frame rate.  Before each frame the caller
//! reads the clock twice (the browser's monotonic clock is sampled once for
//! the new frame timestamp and once for the elapsed-time test) and asks the
//! timer how long to sleep so that frames are at least one budget apart.

use vstd::prelude::*;

verus! {

/// `num / den`, rounded to the nearest integer (halves round up).
pub open spec fn rounded_div(num: int, den: int) -> int
    recommends
        den > 0,
{
    (2 * num + den) / (2 * den)
}

/// How long to sleep when `elapsed` milliseconds of the `budget` have passed.
pub open spec fn frame_delay(budget: int, elapsed: int) -> int {
    if elapsed < budget {
        budget - elapsed
    } else {
        0
    }
}

/// `num / den` rounded to the nearest integer, on machine words.
pub fn rounded_div_u64(num: u64, den: u64) -> (r: u64)
    requires
        1 <= den <= 0x7fff_ffff,
        num <= 0x7fff_ffff,
    ensures
        r == rounded_div(num as int, den as int),
{
    (2 * num + den) / (2 * den)
}

/// The per-frame time budget, in milliseconds, for a requested frame rate:
/// one second divided by the rate, rounded to the nearest millisecond.
pub fn frame_budget_millis(frame_rate: u64) -> (budget: u64)
    requires
        1 <= frame_rate <= 2000,
    ensures
        budget == rounded_div(1000, frame_rate as int),
        1 <= budget <= 1000,
{
    let budget: u64 = rounded_div_u64(1000, frame_rate);
    proof {
        assert(1 <= (2 * 1000 + frame_rate) / (2 * frame_rate as int) <= 1000)
            by (nonlinear_arith)
            requires
                1 <= frame_rate <= 2000,
        ;
    }
    budget
}

/// Sleeping out the reported delay always fills the frame budget: the time
/// since the last frame plus the delay is at least one budget, and exactly
/// one when the budget had not already been exceeded.
pub proof fn lemma_delay_fills_budget(budget: int, elapsed: int)
    requires
        0 <= budget,
        0 <= elapsed,
    ensures
        elapsed + frame_delay(budget, elapsed) >= budget,
        elapsed <= budget ==> elapsed + frame_delay(budget, elapsed) == budget,
{
}

/// Paces a cooperative loop to a fixed number of frames per second.
pub struct Timer {
    last: u64,
    budget_millis: u64,
}

impl Timer {
    /// The timestamp, in milliseconds, at which the current frame began.
    pub closed spec fn last_frame(&self) -> u64 {
        self.last
    }

    /// The per-frame time budget in milliseconds.
    pub closed spec fn budget(&self) -> u64 {
        self.budget_millis
    }

    /// Start pacing at `frame_rate` frames per second, with `now` the current
    /// reading of the clock in milliseconds.
    pub fn new(frame_rate: u64, now: u64) -> (t: Timer)
        requires
            1 <= frame_rate <= 2000,
        ensures
            t.budget() == rounded_div(1000, frame_rate as int),
            1 <= t.budget() <= 1000,
            t.last_frame() == now,
    {
        Timer { last: now, budget_millis: frame_budget_millis(frame_rate) }
    }

    /// Begin the next frame.  `now_first` and `now_second` are two successive
    /// readings of the monotonic clock; the result is how many milliseconds
    /// the caller must still sleep before running the frame, and `now_first`
    /// becomes the new frame timestamp.
    pub fn next_delay(&mut self, now_first: u64, now_second: u64) -> (delay: u64)
        requires
            old(self).last_frame() <= now_first <= now_second,
        ensures
            final(self).budget() == old(self).budget(),
            final(self).last_frame() == now_first,
            delay == frame_delay(
                old(self).budget() as int,
                now_second - old(self).last_frame(),
            ),
            delay <= old(self).budget(),
            now_second - old(self).last_frame() >= old(self).budget() ==> delay == 0,
    {
        let elapsed = now_second - self.last;
        let delay = if elapsed < self.budget_millis {
            self.budget_millis - elapsed
        } else {
            0
        };
        self.last = now_first;
        delay
    }
}

} // verus!
