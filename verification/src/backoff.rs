//! Reconnect discipline for the persistent service connection: exponential
//! backoff starting at one time-unit, doubling per failed attempt, capped,
//! and reset to the initial delay by any successful connect.

use vstd::prelude::*;

verus! {

/// First delay after a fresh start or a successful connect, in seconds.
pub const BACKOFF_INITIAL_SECS: u64 = 1;

/// Largest delay the doubling may reach, in seconds.
pub const BACKOFF_CAP_SECS: u64 = 60;

/// The delay that follows a given delay after one more failure.
pub open spec fn next_delay_spec(d: u64) -> u64 {
    if 2 * d >= BACKOFF_CAP_SECS {
        BACKOFF_CAP_SECS
    } else {
        (2 * d) as u64
    }
}

/// The delay before the attempt that follows `n` consecutive failures since
/// the last success.
pub open spec fn delay_after_failures(n: nat) -> u64
    decreases n,
{
    if n == 0 {
        BACKOFF_INITIAL_SECS
    } else {
        next_delay_spec(delay_after_failures((n - 1) as nat))
    }
}

/// Client-side reconnect backoff state.
pub struct Backoff {
    delay_secs: u64,
}

impl Backoff {
    /// The delay the next failed attempt will wait, in seconds.
    pub closed spec fn delay(&self) -> u64 {
        self.delay_secs
    }

    pub open spec fn wf(&self) -> bool {
        BACKOFF_INITIAL_SECS <= self.delay() <= BACKOFF_CAP_SECS
    }

    pub fn new() -> (r: Self)
        ensures
            r.wf(),
            r.delay() == BACKOFF_INITIAL_SECS,
    {
        Backoff { delay_secs: BACKOFF_INITIAL_SECS }
    }

    /// One connect attempt failed: the caller sleeps for the returned number
    /// of seconds, and the delay for the next failure doubles, capped.
    pub fn on_failure(&mut self) -> (r: u64)
        requires
            old(self).wf(),
        ensures
            final(self).wf(),
            r == old(self).delay(),
            final(self).delay() == next_delay_spec(old(self).delay()),
    {
        let current: u64 = self.delay_secs;
        if current >= BACKOFF_CAP_SECS / 2 {
            self.delay_secs = BACKOFF_CAP_SECS;
        } else {
            self.delay_secs = 2 * current;
        }
        current
    }

    /// A connect succeeded: the backoff resets to the initial delay at once.
    pub fn on_success(&mut self)
        ensures
            final(self).wf(),
            final(self).delay() == BACKOFF_INITIAL_SECS,
    {
        self.delay_secs = BACKOFF_INITIAL_SECS;
    }
}

/// Law: consecutive failures from a fresh (or just-reset) backoff wait
/// 1, 2, 4, 8, 16, 32 seconds, and every later failure waits the 60-second
/// cap; `Backoff::on_success` restores the initial 1-second delay.
pub proof fn lemma_backoff_sequence(n: nat)
    ensures
        n == 0 ==> delay_after_failures(n) == 1,
        n == 1 ==> delay_after_failures(n) == 2,
        n == 2 ==> delay_after_failures(n) == 4,
        n == 3 ==> delay_after_failures(n) == 8,
        n == 4 ==> delay_after_failures(n) == 16,
        n == 5 ==> delay_after_failures(n) == 32,
        n >= 6 ==> delay_after_failures(n) == 60,
    decreases n,
{
    if n > 0 {
        lemma_backoff_sequence((n - 1) as nat);
    }
}

} // verus!
