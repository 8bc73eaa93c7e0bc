//! A Pomodoro timer: alternating study and break phases of fixed length,
//! the countdown text shown for the current phase, and the count of
//! finished study phases.

mod clock;
pub mod countdown;
pub mod laws;
pub mod span;
pub mod stage;
pub mod tracker;

pub use countdown::format_duration;
pub use span::Span;
pub use stage::Stage;
pub use tracker::Pomodoro;
