use vstd::prelude::*;

use crate::clock::{nanos_since, read_origin};
use crate::format::{format_hms, hms};
use crate::model::{add_or, on_clock, since, TimerModel};
use crate::state::TimerState;

verus! {

/// Nanoseconds in a second.
pub const NANOS_PER_SEC: u128 = 1_000_000_000;

/// `base + span`, or `fallback` where the sum overflows the clock.
fn add_or_exec(base: u128, span: u128, fallback: u128) -> (r: u128)
    ensures
        r == add_or(base as int, span as int, fallback as int),
{
    if span <= u128::MAX - base {
        base + span
    } else {
        fallback
    }
}

/// A countdown timer.
///
/// Instants are nanoseconds since `origin`, a reading of the monotonic clock
/// taken when the timer was made.
#[derive(Debug, Clone)]
pub struct DioxusTimer {
    preset_duration: u128,
    target_time: u128,
    state: TimerState,
    /// The clock as of the latest update.
    current_time: u128,
    /// The instant a pause is accounted from; held only while paused.
    paused_time: Option<u128>,
    origin: instant::Instant,
}

impl View for DioxusTimer {
    type V = TimerModel;

    closed spec fn view(&self) -> TimerModel {
        TimerModel {
            preset: self.preset_duration as int,
            target: self.target_time as int,
            state: self.state,
            current: self.current_time as int,
            paused_at: match self.paused_time {
                Some(p) => Some(p as int),
                None => None,
            },
        }
    }
}

impl DioxusTimer {
    /// A timer in the idle state, with a zero length, at its origin.
    pub fn new() -> (r: DioxusTimer)
        ensures
            r@.wf(),
            r@.state == TimerState::Inactive,
            r@.preset == 0,
            r@.current == 0,
            r@.target == 0,
    {
        DioxusTimer {
            preset_duration: 0,
            target_time: 0,
            state: TimerState::Inactive,
            current_time: 0,
            paused_time: None,
            origin: read_origin(),
        }
    }

    /// Sets the length of the countdown, in nanoseconds, and rearms it from
    /// the current instant. Ignored while the timer is finished.
    pub fn set_preset_time(&mut self, preset_duration: u128)
        ensures
            final(self)@ == old(self)@.with_preset(preset_duration as int),
            old(self)@.wf() ==> final(self)@.wf(),
    {
        if self.state == TimerState::Finished {
            return;
        }
        self.preset_duration = preset_duration;
        self.target_time = add_or_exec(self.current_time, preset_duration, self.current_time);
    }

    /// The time left, in nanoseconds, as of the latest update.
    pub fn remaining_time(&self) -> (r: u128)
        ensures
            r == self@.remaining(),
    {
        if self.target_time >= self.current_time {
            self.target_time - self.current_time
        } else {
            0
        }
    }

    /// The state of the timer.
    pub fn state(&self) -> (r: TimerState)
        ensures
            r == self@.state,
    {
        self.state
    }

    /// Starts an idle timer whose length is not zero, or resumes a paused one.
    pub fn start(&mut self)
        ensures
            final(self)@ == old(self)@.started(),
            old(self)@.wf() ==> final(self)@.wf(),
    {
        match self.state {
            TimerState::Inactive => {
                if self.preset_duration == 0 {
                    return;
                }
                self.target_time = add_or_exec(
                    self.current_time,
                    self.preset_duration,
                    self.current_time,
                );
                self.state = TimerState::Working;
            },
            TimerState::Paused => {
                self.state = TimerState::Working;
                self.paused_time = None;
            },
            _ => {},
        }
    }

    /// Pauses a running timer at clock reading `now`.
    pub fn pause_at(&mut self, now: u128)
        ensures
            final(self)@ == old(self)@.paused(now as int),
            old(self)@.wf() ==> final(self)@.wf(),
    {
        if self.state == TimerState::Working {
            self.state = TimerState::Paused;
            self.paused_time = Some(now);
        }
    }

    /// Pauses a running timer at the present moment of the clock.
    pub fn pause(&mut self)
        ensures
            exists|now: int| on_clock(now) && final(self)@ == old(self)@.paused(now),
            old(self)@.state != TimerState::Working ==> final(self)@ == old(self)@,
            old(self)@.wf() ==> final(self)@.wf(),
    {
        let now = nanos_since(&self.origin);
        self.pause_at(now);
        assert(on_clock(now as int) && self@ == old(self)@.paused(now as int));
    }

    /// A finished timer goes back to idle; any other is rearmed from the
    /// current instant, in the state it is in.
    pub fn reset(&mut self)
        ensures
            final(self)@ == old(self)@.reset(),
            old(self)@.wf() ==> final(self)@.wf(),
    {
        if self.state == TimerState::Finished {
            self.state = TimerState::Inactive;
            return;
        }
        self.target_time = add_or_exec(self.current_time, self.preset_duration, self.current_time);
    }

    /// Advances the timer to clock reading `now`: a running timer whose target
    /// is reached finishes, a paused one moves its target on by the time
    /// paused, and an idle one is rearmed.
    pub fn update_at(&mut self, now: u128)
        ensures
            final(self)@ == old(self)@.updated(now as int),
            old(self)@.wf() ==> final(self)@.wf(),
    {
        self.current_time = now;
        match self.state {
            TimerState::Working => {
                if now >= self.target_time {
                    self.state = TimerState::Finished;
                }
            },
            TimerState::Paused => {
                let p = match self.paused_time {
                    Some(p) => p,
                    None => now,
                };
                let paused_for = if now >= p {
                    now - p
                } else {
                    0
                };
                self.target_time = add_or_exec(self.target_time, paused_for, now);
                self.paused_time = Some(now);
            },
            TimerState::Inactive => {
                self.reset();
            },
            TimerState::Finished => {},
        }
    }

    /// Advances the timer to the present moment of the clock.
    pub fn update(&mut self)
        ensures
            final(self)@ == old(self)@.updated(final(self)@.current),
            on_clock(final(self)@.current),
            old(self)@.wf() ==> final(self)@.wf(),
    {
        let now = nanos_since(&self.origin);
        self.update_at(now);
    }

    /// The time left as `HH:MM:SS`, in whole seconds.
    pub fn to_hms_string(&self) -> (r: String)
        ensures
            r@ == hms((self@.remaining() / NANOS_PER_SEC as int) as nat),
    {
        format_hms(self.remaining_time() / NANOS_PER_SEC)
    }
}

impl Default for DioxusTimer {
    fn default() -> (r: DioxusTimer)
        ensures
            r@.wf(),
            r@.state == TimerState::Inactive,
            r@.preset == 0,
            r@.current == 0,
            r@.target == 0,
    {
        DioxusTimer::new()
    }
}

} // verus!
