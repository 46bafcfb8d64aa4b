//! The timer registry: monotonically increasing opaque timer tokens, and
//! conversion of absolute deadlines to relative wait intervals.

use vstd::prelude::*;

verus! {

/// An opaque identifier correlating a scheduled timeout with its firing.
/// Tokens are unique for the lifetime of the registry that issued them.
#[derive(Clone, Copy, Debug, PartialEq, Eq, Structural)]
pub struct TimerToken {
    pub id: u64,
}

/// An explicitly owned monotonic counter issuing timer tokens, so that
/// independent registries can be constructed.
#[derive(Clone, Copy, Debug, PartialEq, Eq, Structural)]
pub struct TimerRegistry {
    pub next_id: u64,
}

impl TimerRegistry {
    /// A fresh registry; its first token carries the identifier one.
    pub fn new() -> (r: TimerRegistry)
        ensures
            r.next_id == 1,
    {
        TimerRegistry { next_id: 1 }
    }

    /// Issues the next timer identifier and advances the counter, so that
    /// consecutive calls return strictly increasing, never repeated values.
    pub fn next_timer_id(&mut self) -> (r: u64)
        requires
            old(self).next_id < u64::MAX,
        ensures
            r == old(self).next_id,
            final(self).next_id == old(self).next_id + 1,
    {
        let id = self.next_id;
        self.next_id = self.next_id + 1;
        id
    }
}

/// The relative wait before a deadline: zero once the deadline has passed,
/// else the whole milliseconds remaining.
pub open spec fn wait_for_deadline(now: u64, deadline: u64) -> u64 {
    if deadline <= now {
        0u64
    } else {
        (deadline - now) as u64
    }
}

/// Converts an absolute deadline to the relative interval handed to the
/// native one-shot timeout mechanism, both in milliseconds.
pub fn time_interval_from_deadline(deadline: u64, now: u64) -> (r: u64)
    ensures
        r == wait_for_deadline(now, deadline),
        deadline <= now ==> r == 0,
        deadline > now ==> r == deadline - now,
{
    if now >= deadline {
        0
    } else {
        deadline - now
    }
}

/// The token identifier issued by the i-th call on a registry whose counter
/// stands at `start`: each call returns the counter and advances it by one.
pub open spec fn token_after_calls(start: u64, i: nat) -> int {
    start + i
}

/// Law: of any two calls on one registry, the earlier call's token is
/// strictly smaller than the later call's, so no token is ever repeated
/// within the registry's lifetime.
pub proof fn lemma_timer_tokens_strictly_increasing(start: u64, i: nat, j: nat)
    requires
        i < j,
    ensures
        token_after_calls(start, i) < token_after_calls(start, j),
        token_after_calls(start, i) != token_after_calls(start, j),
{
}

} // verus!
