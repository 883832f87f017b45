//! Officiating state of a table-tennis match: the phase the match is in and
//! the timers that go with it, driven by discrete actions and by readings of
//! a monotonic clock in milliseconds.
pub mod clock_text;
pub mod match_state;
pub mod timer;
pub mod umpire;

pub use clock_text::format_clock;
pub use match_state::{Action, Durations, MatchState, TimeOutKind};
pub use timer::Timer;
pub use umpire::TTUmpire;
