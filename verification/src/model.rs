//! The mathematical state of a guard, and what a tick does to it.
//!
//! Counters are unbounded integers here, so that a sequence of ticks of any
//! length can be spoken of. The executable guard refers to this state through
//! its view.

use vstd::prelude::*;

verus! {

/// The text that a guard reports unless it was given another.
pub const DEFAULT_MESSAGE: &'static str = "Max number of ticks reached";

/// The state of a guard: its limit, the ticks taken so far, and the text it
/// reports once the limit is exceeded.
pub struct GuardState {
    pub max_ticks: int,
    pub count: int,
    pub message: Seq<char>,
}

impl GuardState {
    /// The state of a newly made guard: no tick taken, the default text.
    pub open spec fn fresh(max_ticks: int) -> GuardState {
        GuardState { max_ticks, count: 0, message: DEFAULT_MESSAGE@ }
    }

    /// The same state with another text to report.
    pub open spec fn with_message(self, message: Seq<char>) -> GuardState {
        GuardState { message, ..self }
    }

    /// The state after one more tick. Only the count changes.
    pub open spec fn tick(self) -> GuardState {
        GuardState { count: self.count + 1, ..self }
    }

    /// Whether more ticks were taken than the limit allows.
    pub open spec fn tripped(self) -> bool {
        self.count > self.max_ticks
    }

    /// The state after `calls` ticks in a row.
    pub open spec fn after(self, calls: nat) -> GuardState
        decreases calls,
    {
        if calls == 0 {
            self
        } else {
            self.after((calls - 1) as nat).tick()
        }
    }

    /// Whether a guard with a 32-bit counter can take one more tick from here.
    pub open spec fn can_tick(self) -> bool {
        self.count < i32::MAX
    }
}

} // verus!
