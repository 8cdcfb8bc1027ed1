//! The executable guard.

use crate::model::{GuardState, DEFAULT_MESSAGE};
use vstd::prelude::*;

verus! {

/// Counts the iterations of a loop against a fixed limit.
///
/// Make the guard outside the loop and call [`LoopGuard::protect`] once in
/// every iteration.
pub struct LoopGuard {
    max_ticks: i32,
    count: i32,
    message: String,
}

/// What a tick beyond the limit is answered with.
#[derive(Debug)]
pub struct GuardExceeded {
    /// The text of the guard that tripped.
    pub message: String,
}

impl View for LoopGuard {
    type V = GuardState;

    closed spec fn view(&self) -> GuardState {
        GuardState {
            max_ticks: self.max_ticks as int,
            count: self.count as int,
            message: self.message@,
        }
    }
}

impl LoopGuard {
    /// A guard that accepts `max` ticks and reports the default text on the
    /// tick after them.
    pub fn new(max: i32) -> (guard: LoopGuard)
        ensures
            guard@ == GuardState::fresh(max as int),
    {
        LoopGuard { max_ticks: max, count: 0, message: DEFAULT_MESSAGE.to_owned() }
    }

    /// The same guard, reporting `message` in place of the text it had.
    pub fn set_message(self, message: &str) -> (guard: LoopGuard)
        ensures
            guard@ == self@.with_message(message@),
    {
        let mut guard = self;
        guard.message = message.to_owned();
        guard
    }

    /// The largest number of ticks that is still accepted. It is the one the
    /// guard was made with.
    pub fn max_ticks(&self) -> (limit: i32)
        ensures
            limit == self@.max_ticks,
    {
        self.max_ticks
    }

    /// The number of ticks taken so far.
    pub fn count(&self) -> (ticks: i32)
        ensures
            ticks == self@.count,
    {
        self.count
    }

    /// Takes one tick. The tick is counted whatever the answer; the answer is
    /// an error, carrying the guard's text, exactly when the count has then
    /// passed the limit.
    pub fn protect(&mut self) -> (outcome: Result<(), GuardExceeded>)
        requires
            old(self)@.can_tick(),
        ensures
            final(self)@ == old(self)@.tick(),
            outcome is Err <==> final(self)@.tripped(),
            outcome matches Err(exceeded) ==> exceeded.message@ == old(self)@.message,
    {
        self.count = self.count + 1;
        if self.count > self.max_ticks {
            Err(GuardExceeded { message: self.message.clone() })
        } else {
            Ok(())
        }
    }
}

} // verus!
