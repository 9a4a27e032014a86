//! Countdown timers, advanced by the time that passed since the last tick.

use vstd::prelude::*;

verus! {

/// Nanoseconds in one second.
pub const NANOS_PER_SEC: u64 = 1_000_000_000;

/// Nanoseconds in one millisecond.
pub const NANOS_PER_MILLI: u64 = 1_000_000;

/// What a timer does once its duration is reached.
#[derive(Clone, Copy, Debug, PartialEq, Eq, Structural)]
pub enum TimerMode {
    /// Stop at the duration and stay finished.
    Once,
    /// Wrap around and count again.
    Repeating,
}

/// What one tick of a running timer leaves behind.
#[derive(Clone, Copy, Debug, PartialEq, Eq, Structural)]
pub struct Ticked {
    /// Elapsed nanoseconds after the tick.
    pub elapsed: u64,
    /// Whether the duration was reached in this tick.
    pub finished: bool,
    /// How often the duration was reached in this tick.
    pub times_finished: u32,
}

/// The outcome of ticking a running timer of `duration` nanoseconds that has
/// `elapsed` nanoseconds behind it by `delta` nanoseconds.
///
/// A timer that runs once stops at its duration. A repeating timer keeps the
/// remainder and counts the wraps, reduced to 32 bits; with a zero duration
/// it wraps as often as the counter can hold.
pub open spec fn ticked(duration: u64, mode: TimerMode, elapsed: u64, delta: u64) -> Ticked {
    let total: int = elapsed + delta;
    if total < duration {
        Ticked { elapsed: total as u64, finished: false, times_finished: 0 }
    } else {
        match mode {
            TimerMode::Once => Ticked { elapsed: duration, finished: true, times_finished: 1 },
            TimerMode::Repeating => if duration == 0 {
                Ticked { elapsed: 0, finished: true, times_finished: u32::MAX }
            } else {
                Ticked {
                    elapsed: (total % (duration as int)) as u64,
                    finished: true,
                    times_finished: ((total / (duration as int)) % 0x1_0000_0000) as u32,
                }
            },
        }
    }
}

/// Ticks a running timer with `bevy::time::Timer::tick`. Trusted, not proved.
///
/// The timer is made with `Timer::new` and `Timer::set_elapsed` from whole
/// nanoseconds, so it is neither paused nor finished when the tick begins,
/// and is read with `elapsed`, `finished` and `times_finished_this_tick`.
/// The contract claims what `tick` does to such a timer: it adds `delta` to
/// the elapsed time; the timer is finished if the sum has reached the
/// duration; a finished timer that runs once is set to its duration and has
/// finished one time; a finished timer that repeats is set to the remainder
/// of the sum by the duration and has finished as often as the quotient
/// says, cut to 32 bits, or, with a zero duration, is set to zero and has
/// finished `u32::MAX` times. No sum of two such times passes what a
/// `Duration` holds, and what is read back fits 64 bits.
#[verifier::external_body]
fn tick_running(duration: u64, mode: TimerMode, elapsed: u64, delta: u64) -> (after: Ticked)
    ensures
        after == ticked(duration, mode, elapsed, delta),
{
    let outside_mode = match mode {
        TimerMode::Once => bevy::time::TimerMode::Once,
        TimerMode::Repeating => bevy::time::TimerMode::Repeating,
    };
    let mut timer = bevy::time::Timer::new(std::time::Duration::from_nanos(duration), outside_mode);
    timer.set_elapsed(std::time::Duration::from_nanos(elapsed));
    timer.tick(std::time::Duration::from_nanos(delta));
    Ticked {
        elapsed: timer.elapsed().as_nanos() as u64,
        finished: timer.finished(),
        times_finished: timer.times_finished_this_tick(),
    }
}

/// A countdown over whole nanoseconds.
#[derive(Clone, Copy, Debug, PartialEq, Eq, Structural)]
pub struct Timer {
    /// Nanoseconds after which the timer is finished.
    pub duration: u64,
    /// Nanoseconds counted so far.
    pub elapsed: u64,
    /// Whether the timer stops or wraps at its duration.
    pub mode: TimerMode,
    /// Whether the duration has been reached.
    pub finished: bool,
    /// How often the duration was reached in the last tick.
    pub times_finished_this_tick: u32,
}

impl Timer {
    /// The elapsed time never lies beyond the duration.
    pub open spec fn wf(&self) -> bool {
        self.elapsed <= self.duration
    }

    /// A timer of `duration` nanoseconds on which no time has passed.
    pub open spec fn fresh(duration: u64, mode: TimerMode) -> Timer {
        Timer { duration, elapsed: 0, mode, finished: false, times_finished_this_tick: 0 }
    }

    /// The timer after `delta` more nanoseconds.
    ///
    /// A finished timer that runs once stays as it is, except that it no
    /// longer counts as having finished in this tick.
    pub open spec fn after_tick(self, delta: u64) -> Timer {
        if self.mode == TimerMode::Once && self.finished {
            Timer { times_finished_this_tick: 0, ..self }
        } else {
            let t = ticked(self.duration, self.mode, self.elapsed, delta);
            Timer {
                elapsed: t.elapsed,
                finished: t.finished,
                times_finished_this_tick: t.times_finished,
                ..self
            }
        }
    }

    /// Whether the last tick reached the duration. For a repeating timer
    /// that is every tick that leaves it finished, however often it wrapped;
    /// for a timer that runs once it is the one tick that finished it.
    pub open spec fn completed_now(self) -> bool {
        match self.mode {
            TimerMode::Repeating => self.finished,
            TimerMode::Once => self.times_finished_this_tick > 0,
        }
    }

    /// A timer of `duration` nanoseconds on which no time has passed.
    pub fn new(duration: u64, mode: TimerMode) -> (timer: Timer)
        ensures
            timer == Timer::fresh(duration, mode),
            timer.wf(),
    {
        Timer { duration, elapsed: 0, mode, finished: false, times_finished_this_tick: 0 }
    }

    /// A timer of `millis` milliseconds on which no time has passed.
    pub fn from_millis(millis: u32, mode: TimerMode) -> (timer: Timer)
        ensures
            timer == Timer::fresh((millis * NANOS_PER_MILLI) as u64, mode),
            timer.wf(),
    {
        Timer::new(millis as u64 * NANOS_PER_MILLI, mode)
    }

    /// The nanoseconds after which the timer is finished.
    pub fn duration(&self) -> (duration: u64)
        ensures
            duration == self.duration,
    {
        self.duration
    }

    /// The nanoseconds counted so far.
    pub fn elapsed(&self) -> (elapsed: u64)
        ensures
            elapsed == self.elapsed,
    {
        self.elapsed
    }

    /// The whole seconds counted so far.
    pub fn elapsed_secs(&self) -> (seconds: u64)
        ensures
            seconds == self.elapsed / NANOS_PER_SEC,
    {
        self.elapsed / NANOS_PER_SEC
    }

    /// The nanoseconds still to go.
    pub fn remaining(&self) -> (left: u64)
        requires
            self.wf(),
        ensures
            left == self.duration - self.elapsed,
    {
        self.duration - self.elapsed
    }

    /// Whether the timer stops or wraps at its duration.
    pub fn mode(&self) -> (mode: TimerMode)
        ensures
            mode == self.mode,
    {
        self.mode
    }

    /// How often the duration was reached in the last tick.
    pub fn times_finished_this_tick(&self) -> (times: u32)
        ensures
            times == self.times_finished_this_tick,
    {
        self.times_finished_this_tick
    }

    /// Whether the duration has been reached.
    pub fn finished(&self) -> (finished: bool)
        ensures
            finished == self.finished,
    {
        self.finished
    }

    /// Whether the duration was reached in the last tick.
    pub fn just_finished(&self) -> (just: bool)
        ensures
            just == (self.times_finished_this_tick > 0),
    {
        self.times_finished_this_tick > 0
    }

    /// Whether the last tick reached the duration.
    pub fn completed(&self) -> (completed: bool)
        ensures
            completed == self.completed_now(),
    {
        match self.mode {
            TimerMode::Repeating => self.finished,
            TimerMode::Once => self.times_finished_this_tick > 0,
        }
    }

    /// Advances the timer by `delta` nanoseconds.
    pub fn tick(&mut self, delta: u64)
        ensures
            *final(self) == old(self).after_tick(delta),
            old(self).wf() ==> final(self).wf(),
    {
        if self.mode == TimerMode::Once && self.finished {
            self.times_finished_this_tick = 0;
        } else {
            let t = tick_running(self.duration, self.mode, self.elapsed, delta);
            self.elapsed = t.elapsed;
            self.finished = t.finished;
            self.times_finished_this_tick = t.times_finished;
        }
    }
}

} // verus!
