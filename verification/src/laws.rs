//! What holds of every guard, whatever its limit, its text and the number of
//! ticks it has taken.

use crate::model::GuardState;
use vstd::prelude::*;

verus! {

/// Every tick is counted, and nothing else changes: after `calls` ticks the
/// count has grown by `calls`, whether or not the guard has tripped on the
/// way, while the limit and the text are what they were.
pub proof fn lemma_ticks_are_counted(state: GuardState, calls: nat)
    ensures
        state.after(calls) == (GuardState { count: state.count + calls, ..state }),
    decreases calls,
{
    if calls > 0 {
        lemma_ticks_are_counted(state, (calls - 1) as nat);
    }
}

/// The limit is inclusive. A guard that has taken no tick and has a limit of
/// zero or more is not tripped by any of its first `max_ticks` ticks, and is
/// tripped by the tick after them.
///
/// Each of the first `max_ticks` ticks can be taken with a 32-bit counter; the
/// tick after them can be taken as long as the limit is below `i32::MAX`.
pub proof fn lemma_limit_is_inclusive(state: GuardState)
    requires
        state.count == 0,
        0 <= state.max_ticks,
    ensures
        forall|calls: nat| calls <= state.max_ticks ==> !(#[trigger] state.after(calls)).tripped(),
        state.after((state.max_ticks + 1) as nat).tripped(),
        forall|calls: nat|
            calls < state.max_ticks <= i32::MAX ==> (#[trigger] state.after(calls)).can_tick(),
        state.max_ticks < i32::MAX ==> state.after(state.max_ticks as nat).can_tick(),
{
    assert forall|calls: nat| #[trigger]
        state.after(calls) == (GuardState { count: calls as int, ..state }) by {
        lemma_ticks_are_counted(state, calls);
    }
}

/// With a limit below zero, a guard that has taken no tick is tripped by its
/// very first tick.
pub proof fn lemma_negative_limit_trips_at_once(state: GuardState)
    requires
        state.count == 0,
        state.max_ticks < 0,
    ensures
        state.can_tick(),
        state.tick().tripped(),
{
}

/// A tripped guard stays tripped: after any number of further ticks it is
/// still tripped, and still reports the same text.
pub proof fn lemma_tripped_stays_tripped(state: GuardState, calls: nat)
    requires
        state.tripped(),
    ensures
        state.after(calls).tripped(),
        state.after(calls).message == state.message,
{
    lemma_ticks_are_counted(state, calls);
}

/// A text given to a guard before its first tick is the text it has after
/// any number of ticks, and so the text of the failure when it trips.
pub proof fn lemma_custom_message_is_kept(max_ticks: int, message: Seq<char>, calls: nat)
    ensures
        GuardState::fresh(max_ticks).with_message(message).after(calls).message == message,
{
    lemma_ticks_are_counted(GuardState::fresh(max_ticks).with_message(message), calls);
}

} // verus!
