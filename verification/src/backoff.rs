//! Retry backoff policy for the polling loop.
//!
//! A [`BackoffController`] tracks one delay in whole seconds. Every failure
//! returns the current delay and then doubles the stored delay, capped at
//! [`MAX_BACKOFF_SECS`]; any success resets it to [`MIN_BACKOFF_SECS`]. The
//! resulting delay schedule for consecutive failures is 1, 2, 4, 8, 10, 10, ...

use vstd::prelude::*;

verus! {

/// Delay, in seconds, after a success or for the first failure.
pub const MIN_BACKOFF_SECS: u64 = 1;

/// Largest delay, in seconds, the controller ever returns.
pub const MAX_BACKOFF_SECS: u64 = 10;

/// The delay that follows `d` in the schedule: doubled, capped.
pub open spec fn next_backoff(d: u64) -> u64 {
    if 2 * d < MAX_BACKOFF_SECS {
        (2 * d) as u64
    } else {
        MAX_BACKOFF_SECS
    }
}

/// The delay returned by the `n`-th consecutive failure (0-based) after a
/// reset.
pub open spec fn backoff_delay_after(n: nat) -> u64
    decreases n,
{
    if n == 0 {
        MIN_BACKOFF_SECS
    } else {
        next_backoff(backoff_delay_after((n - 1) as nat))
    }
}

/// Law: for any run of consecutive failures after a reset, the delays are
/// exactly 1, 2, 4, 8 and then 10 forever; a success starts the schedule over
/// (see [`BackoffController::on_success`]).
pub proof fn lemma_backoff_schedule(n: nat)
    ensures
        backoff_delay_after(n) == if n == 0 {
            1u64
        } else if n == 1 {
            2u64
        } else if n == 2 {
            4u64
        } else if n == 3 {
            8u64
        } else {
            10u64
        },
    decreases n,
{
    if n > 0 {
        lemma_backoff_schedule((n - 1) as nat);
    }
}

/// Law: each failure moves the schedule one step — the delay after `n + 1`
/// failures is the capped double of the delay after `n`. Together with
/// [`BackoffController::new`] starting at [`backoff_delay_after`]`(0)` and
/// [`BackoffController::on_failure`] stepping by [`next_backoff`], the
/// delays a controller returns are exactly this schedule.
pub proof fn lemma_backoff_step(n: nat)
    ensures
        backoff_delay_after(n + 1) == next_backoff(backoff_delay_after(n)),
{
}

/// Tracks the retry delay across iterations of the polling loop.
pub struct BackoffController {
    delay_secs: u64,
}

impl BackoffController {
    /// The delay that the next failure will return.
    pub closed spec fn delay(&self) -> u64 {
        self.delay_secs
    }

    /// The stored delay always stays within the schedule's bounds.
    pub open spec fn well_formed(&self) -> bool {
        MIN_BACKOFF_SECS <= self.delay() <= MAX_BACKOFF_SECS
    }

    /// A fresh controller starts at the minimum delay.
    pub fn new() -> (c: Self)
        ensures
            c.delay() == MIN_BACKOFF_SECS,
            c.well_formed(),
    {
        BackoffController { delay_secs: MIN_BACKOFF_SECS }
    }

    /// Records a failure: returns the delay to wait now, then doubles the
    /// stored delay, capped at [`MAX_BACKOFF_SECS`].
    pub fn on_failure(&mut self) -> (d: u64)
        requires
            old(self).well_formed(),
        ensures
            d == old(self).delay(),
            final(self).delay() == next_backoff(old(self).delay()),
            final(self).well_formed(),
    {
        let d = self.delay_secs;
        self.delay_secs = if 2 * d < MAX_BACKOFF_SECS {
            2 * d
        } else {
            MAX_BACKOFF_SECS
        };
        d
    }

    /// Records a success: the next failure starts over at the minimum delay.
    pub fn on_success(&mut self)
        ensures
            final(self).delay() == MIN_BACKOFF_SECS,
            final(self).well_formed(),
    {
        self.delay_secs = MIN_BACKOFF_SECS;
    }

    /// The delay the next failure would return, without recording anything.
    pub fn current_delay(&self) -> (d: u64)
        ensures
            d == self.delay(),
    {
        self.delay_secs
    }
}

} // verus!
