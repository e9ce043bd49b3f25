//! The cooldown gate for the sequential rate-limited mode: a single loop
//! runs one probe cycle, then waits a fixed interval before the next one,
//! for node providers that enforce a request-rate quota.

use vstd::prelude::*;

verus! {

/// Gates the start of probe cycles: a new cycle may begin only once the
/// configured cooldown has elapsed since the previous cycle's start. The
/// delay is a fixed interval, not an adaptive backoff.
#[derive(Clone, Copy, Debug, PartialEq, Eq, Structural)]
pub struct RateLimiter {
    pub cooldown: u64,
    pub last_start: Option<u64>,
}

impl RateLimiter {
    /// A fresh gate with the given cooldown, in the caller's time unit.
    /// Nothing has started yet, so the first cycle may begin at once.
    pub fn new(cooldown: u64) -> (r: RateLimiter)
        ensures
            r.cooldown == cooldown,
            r.last_start is None,
    {
        RateLimiter { cooldown, last_start: None }
    }

    /// The opening condition: true before any recorded start, and true
    /// again from `last_start + cooldown` onward.
    pub open spec fn spec_may_start(self, now: u64) -> bool {
        match self.last_start {
            None => true,
            Some(started) => now >= started + self.cooldown,
        }
    }

    /// Whether a new cycle may begin at time `now`.
    pub fn may_start(&self, now: u64) -> (r: bool)
        ensures
            r == self.spec_may_start(now),
    {
        match self.last_start {
            None => true,
            Some(started) => now >= started && now - started >= self.cooldown,
        }
    }

    /// Records that a cycle began at time `now`.
    pub fn begin(&mut self, now: u64)
        ensures
            final(self).cooldown == old(self).cooldown,
            final(self).last_start == Some(now),
    {
        self.last_start = Some(now);
    }
}

/// Law: two consecutive starts lie at least one whole cooldown apart.
pub proof fn lemma_cooldown_enforced(gate: RateLimiter, started: u64, now: u64)
    requires
        gate.last_start == Some(started),
        gate.spec_may_start(now),
    ensures
        now >= started + gate.cooldown,
{
}

} // verus!
