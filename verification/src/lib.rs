//! A guard rail for loops: a counter that is ticked once per iteration and
//! reports a failure as soon as a configured number of ticks is exceeded.

pub mod guard;
pub mod laws;
pub mod model;

pub use guard::{GuardExceeded, LoopGuard};
pub use model::DEFAULT_MESSAGE;
