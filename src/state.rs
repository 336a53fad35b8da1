use vstd::prelude::*;

verus! {

/// The lifecycle of a timer.
///
/// `Inactive` is the idle state and `Working` the running one.
#[derive(Debug, Clone, Copy, PartialEq, Eq, Structural)]
pub enum TimerState {
    Inactive,
    Working,
    Finished,
    Paused,
}

/// The text shown for each state.
pub open spec fn state_label(s: TimerState) -> Seq<char> {
    match s {
        TimerState::Inactive => "Inactive"@,
        TimerState::Working => "Working"@,
        TimerState::Finished => "Finished"@,
        TimerState::Paused => "Paused"@,
    }
}

impl TimerState {
    /// The name of the state, as it is displayed.
    pub fn as_str(&self) -> (r: &'static str)
        ensures
            r@ == state_label(*self),
    {
        match self {
            TimerState::Inactive => "Inactive",
            TimerState::Working => "Working",
            TimerState::Finished => "Finished",
            TimerState::Paused => "Paused",
        }
    }
}

} // verus!
