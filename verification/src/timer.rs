//! Timer tick source.
//!
//! A free-running hardware counter overflows once per tick interval and
//! raises an interrupt. The handler records the overflow in a one-shot
//! flag and must clear both the peripheral's overflow status bit and the
//! interrupt controller's pending indication — omitting either leaves the
//! line asserted and the interrupt storms. The main loop consumes the flag
//! with `poll_and_clear`: ticks are coalesced, never queued, so one
//! physical overflow yields exactly one `true` poll.

use vstd::prelude::*;

verus! {

/// One-shot "the timer has fired since the last poll" flag, set by the
/// overflow interrupt handler and cleared by exactly one consumer call
/// from the main loop. The platform wraps every access in a critical
/// section or an atomic, so each call sees a consistent value.
pub struct TimerFlag {
    /// Whether an overflow was recorded since the last poll. Written only
    /// by the overflow handler (to set) and the polling consumer (to
    /// clear).
    pub fired: bool,
}

/// Hardware effects the caller of the overflow handler must perform on the
/// timer peripheral and the interrupt controller before returning.
pub struct TimerIsrEffect {
    /// Clear the peripheral's own overflow status bit.
    pub clear_overflow_status: bool,
    /// Clear the interrupt controller's pending indication for this source.
    pub clear_irq_pending: bool,
}

/// Flag value after one `poll_and_clear` call.
pub open spec fn after_poll(f: TimerFlag) -> TimerFlag {
    TimerFlag { fired: false }
}

/// Flag value after the overflow handler ran with the peripheral's
/// overflow status bit set.
pub open spec fn after_overflow(f: TimerFlag) -> TimerFlag {
    TimerFlag { fired: true }
}

/// Flag value after `n` successive `poll_and_clear` calls.
pub open spec fn after_polls(f: TimerFlag, n: nat) -> TimerFlag
    decreases n,
{
    if n == 0 {
        f
    } else {
        after_polls(after_poll(f), (n - 1) as nat)
    }
}

impl TimerFlag {
    /// Whether an overflow has been recorded since the last poll.
    pub open spec fn is_set(&self) -> bool {
        self.fired
    }

    /// The flag at reset: no overflow recorded.
    pub fn new() -> (f: TimerFlag)
        ensures
            !f.is_set(),
    {
        TimerFlag { fired: false }
    }

    /// Overflow interrupt handler: records the overflow iff the
    /// peripheral's overflow status bit was set, and directs the caller to
    /// clear that bit and, in every case, the interrupt controller's
    /// pending indication.
    pub fn on_overflow_interrupt(&mut self, overflow_status: bool) -> (e: TimerIsrEffect)
        ensures
            final(self).is_set() == (old(self).is_set() || overflow_status),
            overflow_status ==> *final(self) == after_overflow(*old(self)),
            e.clear_overflow_status == overflow_status,
            e.clear_irq_pending,
    {
        if overflow_status {
            self.fired = true;
        }
        TimerIsrEffect { clear_overflow_status: overflow_status, clear_irq_pending: true }
    }

    /// Atomically reads and resets the flag: returns `true` iff an
    /// overflow was recorded since the previous poll.
    pub fn poll_and_clear(&mut self) -> (r: bool)
        ensures
            r == old(self).is_set(),
            !final(self).is_set(),
            *final(self) == after_poll(*old(self)),
    {
        let r = self.fired;
        self.fired = false;
        r
    }
}

/// Count-up period for a tick interval of one second: the counter runs at
/// the peripheral clock rate and overflows after `clock_hz` counts, so the
/// reload register holds one less.
pub fn timer_period_count(clock_hz: u32) -> (r: u32)
    requires
        clock_hz >= 1,
    ensures
        r == clock_hz - 1,
{
    clock_hz - 1
}

/// Law: ticks are coalesced, not queued. After one recorded overflow the
/// first poll returns `true`, and the flag stays clear under every later
/// poll, so each of them returns `false` until the next overflow; in
/// particular, two polls in a row without an intervening overflow return
/// `true` at most once, whatever the flag held.
pub proof fn lemma_poll_coalesces(f: TimerFlag, n: nat)
    ensures
        after_overflow(f).is_set(),
        n >= 1 ==> !after_polls(after_overflow(f), n).is_set(),
        !(f.is_set() && after_poll(f).is_set()),
{
    if n >= 1 {
        lemma_polls_stay_clear(after_poll(after_overflow(f)), (n - 1) as nat);
    }
}

/// A flag that is clear stays clear under any number of polls.
pub proof fn lemma_polls_stay_clear(f: TimerFlag, n: nat)
    requires
        !f.is_set(),
    ensures
        !after_polls(f, n).is_set(),
    decreases n,
{
    if n > 0 {
        lemma_polls_stay_clear(after_poll(f), (n - 1) as nat);
    }
}

} // verus!
