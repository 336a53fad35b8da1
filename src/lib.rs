//! A countdown timer driven by a monotonic clock.
//!
//! The timer keeps every instant as a count of nanoseconds since an origin
//! reading of the clock, taken when the timer is made. Each operation that
//! reads the clock has a companion that takes the reading as an argument
//! (`update_at`, `pause_at`); those companions carry the exact contracts.
mod clock;
pub mod format;
pub mod laws;
pub mod model;
mod state;
mod timer;

pub use format::format_hms;
pub use model::TimerModel;
pub use state::TimerState;
pub use timer::{DioxusTimer, NANOS_PER_SEC};
