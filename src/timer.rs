use vstd::prelude::*;

verus! {

/// Whether a timer stops at its duration or starts over.
#[derive(Clone, Copy, Debug, PartialEq, Eq, Structural)]
pub enum TimerMode {
    Once,
    Repeating,
}

/// A timer counted in whole milliseconds. Its state is held as plain
/// values; each tick is computed by bevy's `Timer`.
#[derive(Clone, Copy, Debug, PartialEq, Eq, Structural)]
pub struct Timer {
    pub duration_ms: u32,
    pub elapsed_ms: u64,
    pub mode: TimerMode,
    /// The duration has been reached (for a repeating timer: on the last tick).
    pub finished: bool,
    /// How many times the duration was reached on the last tick.
    pub times_finished_this_tick: u32,
}

/// Elapsed time, finished flag and finish count of a fresh, running timer
/// of `duration` in `mode`, set to `elapsed` and then ticked by `delta`.
pub open spec fn tick_outcome(duration: u32, elapsed: u64, mode: TimerMode, delta: u64) -> (
    u64,
    bool,
    u32,
) {
    let e = elapsed + delta;
    if e < duration {
        (e as u64, false, 0)
    } else if mode == TimerMode::Once {
        (duration as u64, true, 1)
    } else if duration == 0 {
        (0, true, u32::MAX)
    } else {
        ((e % duration as int) as u64, true, (e / duration as int) as u32)
    }
}

/// Relies on bevy's `Timer::tick` (with `Timer::new` and `Timer::set_elapsed`):
/// a running timer at `elapsed_ms` is advanced by `delta_ms`. Ticking adds
/// the delta to the elapsed time; once it reaches the duration, a one-shot
/// timer stops at the duration and counts one finish, and a repeating timer
/// keeps the remainder and counts the whole periods passed (cut to `u32`;
/// all of them for a zero duration, with nothing kept).
#[verifier::external_body]
fn bevy_timer_tick(duration_ms: u32, elapsed_ms: u64, mode: TimerMode, delta_ms: u64) -> (r: (
    u64,
    bool,
    u32,
))
    ensures
        r == tick_outcome(duration_ms, elapsed_ms, mode, delta_ms),
{
    let bevy_mode = match mode {
        TimerMode::Once => bevy::time::TimerMode::Once,
        TimerMode::Repeating => bevy::time::TimerMode::Repeating,
    };
    let mut timer = bevy::time::Timer::new(
        std::time::Duration::from_millis(duration_ms as u64),
        bevy_mode,
    );
    timer.set_elapsed(std::time::Duration::from_millis(elapsed_ms));
    timer.tick(std::time::Duration::from_millis(delta_ms));
    (timer.elapsed().as_millis() as u64, timer.is_finished(), timer.times_finished_this_tick())
}

impl Timer {
    /// The timer after `delta` more milliseconds: a finished one-shot timer
    /// stays as it is, with no finish on this tick.
    pub open spec fn ticked(self, delta: u64) -> Timer {
        if self.mode == TimerMode::Once && self.finished {
            Timer { times_finished_this_tick: 0, ..self }
        } else {
            let (elapsed_ms, finished, times) = tick_outcome(
                self.duration_ms,
                self.elapsed_ms,
                self.mode,
                delta,
            );
            Timer { elapsed_ms, finished, times_finished_this_tick: times, ..self }
        }
    }

    /// A timer of the given length that has not run yet.
    pub open spec fn new_spec(duration_ms: u32, mode: TimerMode) -> Timer {
        Timer { duration_ms, elapsed_ms: 0, mode, finished: false, times_finished_this_tick: 0 }
    }

    /// A timer that has run for no time.
    pub fn new(duration_ms: u32, mode: TimerMode) -> (r: Timer)
        ensures
            r == Timer::new_spec(duration_ms, mode),
    {
        Timer { duration_ms, elapsed_ms: 0, mode, finished: false, times_finished_this_tick: 0 }
    }

    /// Advances the timer by `delta` milliseconds.
    pub fn tick(&mut self, delta: u64)
        ensures
            *final(self) == old(self).ticked(delta),
    {
        if self.mode == TimerMode::Once && self.finished {
            self.times_finished_this_tick = 0;
            return;
        }
        let (elapsed_ms, finished, times) = bevy_timer_tick(
            self.duration_ms,
            self.elapsed_ms,
            self.mode,
            delta,
        );
        self.elapsed_ms = elapsed_ms;
        self.finished = finished;
        self.times_finished_this_tick = times;
    }

    /// The timer started over.
    pub open spec fn restarted(self) -> Timer {
        Timer { elapsed_ms: 0, finished: false, times_finished_this_tick: 0, ..self }
    }

    /// Starts the timer over.
    pub fn reset(&mut self)
        ensures
            *final(self) == old(self).restarted(),
    {
        self.elapsed_ms = 0;
        self.finished = false;
        self.times_finished_this_tick = 0;
    }

    /// The duration has been reached.
    pub fn is_finished(&self) -> (r: bool)
        ensures
            r == self.finished,
    {
        self.finished
    }

    /// The duration was reached on the last tick.
    pub fn just_finished(&self) -> (r: bool)
        ensures
            r == (self.times_finished_this_tick > 0),
    {
        self.times_finished_this_tick > 0
    }
}

} // verus!
