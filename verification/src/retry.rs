//! Waiting longer after each failure.

use std::time::Duration;
use vstd::prelude::*;

verus! {

/// The nanoseconds in a duration, as `Duration::as_nanos` counts them.
pub uninterp spec fn nanos(duration: Duration) -> nat;

/// The longest duration there is, in nanoseconds.
pub open spec fn longest() -> nat {
    (u64::MAX * 1_000_000_000 + 999_999_999) as nat
}

/// `Duration::as_nanos`: the whole duration in nanoseconds. No duration is
/// longer than `Duration::MAX`.
pub assume_specification[ Duration::as_nanos ](duration: &Duration) -> (n: u128)
    ensures
        n == nanos(*duration),
        n <= longest(),
;

/// `Duration::from_millis`: that many thousandths of a second.
pub assume_specification[ Duration::from_millis ](millis: u64) -> (duration: Duration)
    ensures
        nanos(duration) == millis * 1_000_000,
;

/// `Duration::from_secs`: that many seconds.
pub assume_specification[ Duration::from_secs ](secs: u64) -> (duration: Duration)
    ensures
        nanos(duration) == secs * 1_000_000_000,
;

/// `Duration::saturating_mul`: the product, or the longest duration where the
/// product is longer than that.
pub assume_specification[ Duration::saturating_mul ](duration: Duration, rhs: u32) -> (product:
    Duration)
    ensures
        nanos(product) == if nanos(duration) * rhs <= longest() {
            (nanos(duration) * rhs) as nat
        } else {
            longest()
        },
;

/// The next wait after this one: twice as long, up to a limit.
pub open spec fn doubled(current: nat, max: nat) -> nat {
    if 2 * current <= max {
        2 * current
    } else {
        max
    }
}

/// Twice the duration, or `max` where that is shorter.
pub fn double_up_to(current: Duration, max: Duration) -> (next: Duration)
    ensures
        nanos(next) == doubled(nanos(current), nanos(max)),
{
    let twice: Duration = current.saturating_mul(2);
    assert(nanos(current) * 2u32 == 2 * nanos(current)) by (nonlinear_arith);
    if twice.as_nanos() <= max.as_nanos() {
        twice
    } else {
        max
    }
}

/// How long to wait between attempts, and how many attempts to make.
#[derive(Clone, Copy, Debug)]
pub struct ExponentialBackoff {
    /// The next wait
    pub current: Duration,
    /// The first wait
    pub initial: Duration,
    /// No later wait is longer than this
    pub max: Duration,
    /// How many waits there have been
    pub count: u32,
    /// How many waits there may be
    pub max_count: u32,
}

impl ExponentialBackoff {
    /// Starts at `initial_ms` milliseconds and doubles up to `max_secs`
    /// seconds, for `max_count` waits.
    pub fn new(initial_ms: u64, max_secs: u64, max_count: u32) -> (backoff: Self)
        ensures
            nanos(backoff.current) == initial_ms * 1_000_000,
            nanos(backoff.initial) == initial_ms * 1_000_000,
            nanos(backoff.max) == max_secs * 1_000_000_000,
            backoff.count == 0,
            backoff.max_count == max_count,
    {
        let initial: Duration = Duration::from_millis(initial_ms);
        ExponentialBackoff {
            current: initial,
            initial,
            max: Duration::from_secs(max_secs),
            count: 0,
            max_count,
        }
    }

    /// Five waits that start at 50 milliseconds and double up to one second.
    pub fn default_retry() -> (backoff: Self)
        ensures
            nanos(backoff.current) == 50_000_000,
            nanos(backoff.initial) == 50_000_000,
            nanos(backoff.max) == 1_000_000_000,
            backoff.count == 0,
            backoff.max_count == 5,
    {
        Self::new(50, 1, 5)
    }

    /// How long to wait before the next attempt, or nothing where no attempt
    /// is left.
    pub fn next_wait(&mut self) -> (wait: Option<Duration>)
        ensures
            final(self).initial == old(self).initial,
            final(self).max == old(self).max,
            final(self).max_count == old(self).max_count,
            old(self).count >= old(self).max_count ==> wait is None && *final(self) == *old(self),
            old(self).count < old(self).max_count ==> {
                &&& wait == Some(old(self).current)
                &&& final(self).count == old(self).count + 1
                &&& nanos(final(self).current) == doubled(
                    nanos(old(self).current),
                    nanos(old(self).max),
                )
            },
    {
        if self.count >= self.max_count {
            return None;
        }
        let wait: Duration = self.current;
        self.current = double_up_to(self.current, self.max);
        self.count = self.count + 1;
        Some(wait)
    }

    /// Starts over.
    pub fn reset(&mut self)
        ensures
            *final(self) == (ExponentialBackoff {
                current: old(self).initial,
                count: 0,
                ..*old(self)
            }),
    {
        self.current = self.initial;
        self.count = 0;
    }

    /// How many waits there have been.
    pub fn count(&self) -> (n: u32)
        ensures
            n == self.count,
    {
        self.count
    }

    /// Whether no wait is left.
    pub fn is_exhausted(&self) -> (r: bool)
        ensures
            r == (self.count >= self.max_count),
    {
        self.count >= self.max_count
    }
}

impl Default for ExponentialBackoff {
    fn default() -> (backoff: Self)
        ensures
            nanos(backoff.current) == 50_000_000,
            nanos(backoff.initial) == 50_000_000,
            nanos(backoff.max) == 1_000_000_000,
            backoff.count == 0,
            backoff.max_count == 5,
    {
        Self::default_retry()
    }
}

/// The wait after `k` others.
pub open spec fn kth_wait(initial: nat, max: nat, k: nat) -> nat
    decreases k,
{
    if k == 0 {
        initial
    } else {
        doubled(kth_wait(initial, max, (k - 1) as nat), max)
    }
}

/// No wait but the first is longer than the limit, and the first is what was
/// asked for.
pub proof fn lemma_waits_stay_within_the_limit(initial: nat, max: nat, k: nat)
    ensures
        kth_wait(initial, max, 0) == initial,
        k > 0 ==> kth_wait(initial, max, k) <= max,
    decreases k,
{
    if k > 0 {
        lemma_waits_stay_within_the_limit(initial, max, (k - 1) as nat);
    }
}

/// A later wait is never shorter than an earlier one, as long as the first
/// wait is within the limit.
pub proof fn lemma_waits_do_not_shrink(initial: nat, max: nat, k: nat)
    requires
        initial <= max,
    ensures
        kth_wait(initial, max, k) <= kth_wait(initial, max, k + 1) <= max,
    decreases k,
{
    if k > 0 {
        lemma_waits_do_not_shrink(initial, max, (k - 1) as nat);
    }
}

} // verus!
