use vstd::prelude::*;

use crate::state::TimerState;

verus! {

/// The largest instant the clock can hold, in nanoseconds since the origin.
pub open spec fn clock_max() -> int {
    u128::MAX as int
}

/// `base + span`, or `fallback` where the sum leaves the clock's range.
pub open spec fn add_or(base: int, span: int, fallback: int) -> int {
    if base + span <= clock_max() {
        base + span
    } else {
        fallback
    }
}

/// `later - earlier`, or zero where `later` comes first.
pub open spec fn since(later: int, earlier: int) -> int {
    if later >= earlier {
        later - earlier
    } else {
        0
    }
}

/// What a timer is: every instant counts nanoseconds since the timer's origin.
pub ghost struct TimerModel {
    /// The configured length of the countdown.
    pub preset: int,
    /// The instant at which the countdown reaches zero if it runs on.
    pub target: int,
    pub state: TimerState,
    /// The clock as of the latest update.
    pub current: int,
    /// Where the timer is paused: the instant the pause was last accounted from.
    pub paused_at: Option<int>,
}

/// A clock value: a count of nanoseconds that fits the clock.
pub open spec fn on_clock(t: int) -> bool {
    0 <= t <= clock_max()
}

impl TimerModel {
    /// The invariant of a timer: its values fit the clock, and a pause
    /// instant is held exactly while the timer is paused.
    pub open spec fn wf(self) -> bool {
        &&& on_clock(self.preset)
        &&& on_clock(self.target)
        &&& on_clock(self.current)
        &&& self.paused_at.is_some() <==> self.state == TimerState::Paused
        &&& (self.paused_at matches Some(p) ==> on_clock(p))
    }

    /// The time left: `target - current`, never below zero.
    pub open spec fn remaining(self) -> int {
        since(self.target, self.current)
    }

    /// The countdown rearmed from the current instant.
    pub open spec fn rearmed(self) -> TimerModel {
        TimerModel { target: add_or(self.current, self.preset, self.current), ..self }
    }

    /// Configuring the length; refused while finished.
    pub open spec fn with_preset(self, d: int) -> TimerModel {
        if self.state == TimerState::Finished {
            self
        } else {
            TimerModel { preset: d, ..self }.rearmed()
        }
    }

    /// Starting or resuming the countdown.
    pub open spec fn started(self) -> TimerModel {
        match self.state {
            TimerState::Inactive => if self.preset == 0 {
                self
            } else {
                TimerModel { state: TimerState::Working, ..self.rearmed() }
            },
            TimerState::Paused => TimerModel {
                state: TimerState::Working,
                paused_at: None,
                ..self
            },
            _ => self,
        }
    }

    /// Pausing a running countdown at clock reading `now`.
    pub open spec fn paused(self, now: int) -> TimerModel {
        if self.state == TimerState::Working {
            TimerModel { state: TimerState::Paused, paused_at: Some(now), ..self }
        } else {
            self
        }
    }

    /// Resetting: a finished timer goes back to idle, any other is rearmed.
    pub open spec fn reset(self) -> TimerModel {
        if self.state == TimerState::Finished {
            TimerModel { state: TimerState::Inactive, ..self }
        } else {
            self.rearmed()
        }
    }

    /// Advancing to clock reading `now`.
    pub open spec fn updated(self, now: int) -> TimerModel {
        let m = TimerModel { current: now, ..self };
        match self.state {
            TimerState::Working => if now >= self.target {
                TimerModel { state: TimerState::Finished, ..m }
            } else {
                m
            },
            TimerState::Paused => {
                let p = match self.paused_at {
                    Some(p) => p,
                    None => now,
                };
                TimerModel {
                    target: add_or(self.target, since(now, p), now),
                    paused_at: Some(now),
                    ..m
                }
            },
            TimerState::Inactive => m.reset(),
            TimerState::Finished => m,
        }
    }

    /// The timer after an update at each reading of `ts`, in order.
    pub open spec fn updated_through(self, ts: Seq<int>) -> TimerModel
        decreases ts.len(),
    {
        if ts.len() == 0 {
            self
        } else {
            self.updated_through(ts.drop_last()).updated(ts.last())
        }
    }
}

} // verus!
