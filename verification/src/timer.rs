//! Countdown timers driven by the frame delta.

use vstd::prelude::*;

verus! {

/// Nanoseconds in one second.
pub const NANOS_PER_SECOND: u64 = 1_000_000_000;

/// What a timer does once its duration has elapsed.
#[derive(Clone, Copy, Debug, PartialEq, Eq, Structural)]
pub enum TimerMode {
    /// Finish once and then stay finished.
    Once,
    /// Finish, keep the overshoot and start over.
    Repeating,
}

/// A timer that is advanced by `tick` with the time since the last frame.
/// All times are in nanoseconds.
#[derive(Clone, Copy, Debug, PartialEq, Eq, Structural)]
pub struct Timer {
    pub duration: u64,
    pub elapsed: u64,
    pub mode: TimerMode,
    pub finished: bool,
    pub times_finished_this_tick: u32,
}

impl Timer {
    /// A timer that has not run yet.
    pub open spec fn fresh(duration: u64, mode: TimerMode) -> Timer {
        Timer { duration, elapsed: 0, mode, finished: false, times_finished_this_tick: 0 }
    }

    /// The timer after one tick of `delta` nanoseconds.
    ///
    /// A finished `Once` timer stays as it is and no longer reports that it
    /// just finished. Otherwise the delta is added to the elapsed time. A
    /// `Once` timer that reaches its duration stops exactly there. A
    /// `Repeating` timer wraps around, counting how many times the duration
    /// fitted into the tick (at most `u32::MAX`).
    pub open spec fn ticked(self, delta: u64) -> Timer {
        let total = self.elapsed as int + delta as int;
        if self.mode == TimerMode::Once && self.finished {
            Timer { times_finished_this_tick: 0, ..self }
        } else if total < self.duration {
            Timer { elapsed: total as u64, finished: false, times_finished_this_tick: 0, ..self }
        } else if self.mode == TimerMode::Once {
            Timer { elapsed: self.duration, finished: true, times_finished_this_tick: 1, ..self }
        } else if self.duration == 0 {
            Timer { elapsed: 0, finished: true, times_finished_this_tick: u32::MAX, ..self }
        } else {
            let laps = total / (self.duration as int);
            Timer {
                elapsed: (total % (self.duration as int)) as u64,
                finished: true,
                times_finished_this_tick: if laps > u32::MAX { u32::MAX } else { laps as u32 },
                ..self
            }
        }
    }

    /// Whether the tick that was just made completed the timer.
    pub open spec fn spec_just_finished(self) -> bool {
        self.times_finished_this_tick > 0
    }

    /// A timer of `duration` nanoseconds that has not run yet.
    pub fn new(duration: u64, mode: TimerMode) -> (timer: Timer)
        ensures
            timer == Timer::fresh(duration, mode),
    {
        Timer { duration, elapsed: 0, mode, finished: false, times_finished_this_tick: 0 }
    }

    /// A timer of whole seconds that has not run yet.
    pub fn from_seconds(seconds: u32, mode: TimerMode) -> (timer: Timer)
        ensures
            timer == Timer::fresh((seconds * NANOS_PER_SECOND) as u64, mode),
            seconds * NANOS_PER_SECOND <= u64::MAX,
    {
        let duration: u64 = seconds as u64 * NANOS_PER_SECOND;
        Timer::new(duration, mode)
    }

    /// Advances the timer by `delta` nanoseconds.
    pub fn tick(&mut self, delta: u64)
        ensures
            *final(self) == old(self).ticked(delta),
    {
        if self.mode == TimerMode::Once && self.finished {
            self.times_finished_this_tick = 0;
            return;
        }
        let total: u128 = self.elapsed as u128 + delta as u128;
        let duration: u128 = self.duration as u128;
        if total < duration {
            self.elapsed = total as u64;
            self.finished = false;
            self.times_finished_this_tick = 0;
        } else if self.mode == TimerMode::Once {
            self.elapsed = self.duration;
            self.finished = true;
            self.times_finished_this_tick = 1;
        } else if self.duration == 0 {
            self.elapsed = 0;
            self.finished = true;
            self.times_finished_this_tick = u32::MAX;
        } else {
            let laps: u128 = total / duration;
            self.elapsed = (total % duration) as u64;
            self.finished = true;
            self.times_finished_this_tick = if laps > u32::MAX as u128 {
                u32::MAX
            } else {
                laps as u32
            };
        }
    }

    /// Whether the timer has reached its duration.
    pub fn finished(&self) -> (done: bool)
        ensures
            done == self.finished,
    {
        self.finished
    }

    /// Whether the last tick completed the timer.
    pub fn just_finished(&self) -> (done: bool)
        ensures
            done == self.spec_just_finished(),
    {
        self.times_finished_this_tick > 0
    }
}

} // verus!
