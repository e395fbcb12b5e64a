//! Exponential backoff between reload attempts.
//!
//! The reload controller starts with a delay of one millisecond, doubles it
//! on every consecutive failure, and resets it to one millisecond as soon as
//! a reload succeeds.  Doubling saturates at `u64::MAX` so that retrying can
//! go on forever without the delay ever overflowing.

use vstd::arithmetic::power2::{lemma2_to64, lemma2_to64_rest, lemma_pow2_unfold, pow2};
use vstd::prelude::*;

verus! {

/// The base delay, in milliseconds, before the first retry.
pub const BASE_DELAY_MILLIS: u64 = 1;

/// The delay that follows `d` after one more consecutive failure:
/// doubled, saturating at `u64::MAX`.
pub open spec fn next_delay(d: u64) -> u64 {
    if 2 * d <= u64::MAX {
        (2 * d) as u64
    } else {
        u64::MAX
    }
}

/// The delay after `n` consecutive failures of a freshly created
/// `BackoffState`.
pub open spec fn delay_after_failures(n: nat) -> u64
    decreases n,
{
    if n == 0 {
        BASE_DELAY_MILLIS
    } else {
        next_delay(delay_after_failures((n - 1) as nat))
    }
}

/// Retry delay bookkeeping, local to the reload controller's loop.
pub struct BackoffState {
    delay_millis: u64,
}

impl BackoffState {
    /// The delay, in milliseconds, that the next retry would wait for.
    pub closed spec fn delay(&self) -> u64 {
        self.delay_millis
    }

    pub fn new() -> (s: Self)
        ensures
            s.delay() == BASE_DELAY_MILLIS,
    {
        BackoffState { delay_millis: BASE_DELAY_MILLIS }
    }

    /// The delay, in milliseconds, that the next retry would wait for.
    pub fn delay_millis(&self) -> (d: u64)
        ensures
            d == self.delay(),
    {
        self.delay_millis
    }

    /// A reload succeeded: the delay returns to the base value.
    pub fn on_success(&mut self)
        ensures
            final(self).delay() == BASE_DELAY_MILLIS,
    {
        self.delay_millis = BASE_DELAY_MILLIS;
    }

    /// A reload failed: the delay doubles (saturating), and the caller
    /// sleeps for the returned number of milliseconds before retrying.
    pub fn on_failure(&mut self) -> (d: u64)
        ensures
            final(self).delay() == next_delay(old(self).delay()),
            d == final(self).delay(),
    {
        if self.delay_millis <= u64::MAX / 2 {
            self.delay_millis = self.delay_millis * 2;
        } else {
            self.delay_millis = u64::MAX;
        }
        self.delay_millis
    }
}

/// The backoff schedule is exponential: after `n` consecutive failures of a
/// fresh `BackoffState` the delay before the next attempt is `2^n` times the
/// base delay, and a single success resets it to the base delay (see
/// `BackoffState::on_success`).  The bound on `n` keeps `2^n` below the
/// saturation point of the doubling.
pub proof fn lemma_backoff_exponential(n: nat)
    requires
        n <= 63,
    ensures
        delay_after_failures(n) == pow2(n) * BASE_DELAY_MILLIS,
    decreases n,
{
    lemma2_to64();
    lemma2_to64_rest();
    if n == 0 {
        assert(pow2(0) == 1);
    } else {
        lemma_backoff_exponential((n - 1) as nat);
        lemma_pow2_unfold(n);
        assert(pow2((n - 1) as nat) <= pow2(63)) by {
            if n - 1 < 63 {
                vstd::arithmetic::power2::lemma_pow2_strictly_increases((n - 1) as nat, 63);
            }
        }
    }
}

} // verus!
