use vstd::prelude::*;
use crate::cache::age;

verus! {

/// How long a caller must wait at `now`, in milliseconds, so that at least `min_interval` has
/// passed since `last` was stamped; nothing when no stamp was ever made.
pub open spec fn required_wait(last: Option<u64>, min_interval: u64, now: u64) -> int {
    match last {
        None => 0,
        Some(t) => if age(t, now) < min_interval {
            min_interval - age(t, now)
        } else {
            0
        },
    }
}

/// A limiter of capacity one: each acquisition is spaced at least `min_interval` milliseconds
/// after the last one it saw stamped. The wait itself happens outside, between `acquire` and
/// `stamp`, so that no lock is held while sleeping.
pub struct RateLimiter {
    min_interval: u64,
    last_request: Option<u64>,
}

impl RateLimiter {
    /// The minimum spacing, in milliseconds.
    pub closed spec fn min_interval_spec(&self) -> u64 {
        self.min_interval
    }

    /// The time of the last stamped acquisition, if any.
    pub closed spec fn last_spec(&self) -> Option<u64> {
        self.last_request
    }

    /// A limiter that has seen no acquisition yet.
    pub fn new(min_interval: u64) -> (r: RateLimiter)
        ensures
            r.min_interval_spec() == min_interval,
            r.last_spec() is None,
    {
        RateLimiter { min_interval, last_request: None }
    }

    /// The minimum spacing, in milliseconds.
    pub fn min_interval(&self) -> (r: u64)
        ensures
            r == self.min_interval_spec(),
    {
        self.min_interval
    }

    /// Starts an acquisition at `now` and returns how long the caller must sleep first. When no
    /// wait is needed the acquisition is stamped at `now` at once; otherwise the state is left
    /// as it was and the caller calls `stamp` after sleeping.
    pub fn acquire(&mut self, now: u64) -> (wait: u64)
        ensures
            wait == required_wait(old(self).last_spec(), old(self).min_interval_spec(), now),
            final(self).min_interval_spec() == old(self).min_interval_spec(),
            wait == 0 ==> final(self).last_spec() == Some(now),
            wait > 0 ==> final(self).last_spec() == old(self).last_spec(),
    {
        match self.last_request {
            Some(last) => {
                let elapsed = if now >= last {
                    now - last
                } else {
                    0
                };
                if elapsed < self.min_interval {
                    return self.min_interval - elapsed;
                }
            },
            None => {},
        }
        self.last_request = Some(now);
        0
    }

    /// Records an acquisition completed at `now`, after the wait that `acquire` asked for.
    pub fn stamp(&mut self, now: u64)
        ensures
            final(self).min_interval_spec() == old(self).min_interval_spec(),
            final(self).last_spec() == Some(now),
    {
        self.last_request = Some(now);
    }
}

/// The spacing law: a fresh limiter never makes its first caller wait; a caller arriving `delta`
/// milliseconds after the last stamp waits `min_interval - delta` when `delta` is shorter than
/// the interval and not at all otherwise; and a zero interval never makes anyone wait.
pub proof fn lemma_spacing(min_interval: u64, stamped: u64, delta: u64, now: u64)
    requires
        stamped + delta <= u64::MAX,
    ensures
        required_wait(None, min_interval, now) == 0,
        delta < min_interval ==> required_wait(Some(stamped), min_interval, (stamped + delta) as u64)
            == min_interval - delta,
        delta >= min_interval ==> required_wait(Some(stamped), min_interval, (stamped + delta) as u64)
            == 0,
        forall|last: Option<u64>| #[trigger] required_wait(last, 0, now) == 0,
{
}

} // verus!
