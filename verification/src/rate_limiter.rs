//! The single-slot cooldown limiter shared by all capture triggers.
//!
//! Instants are milliseconds on a monotonic clock chosen by the caller.
//! The limiter itself holds no lock: a caller that shares it between threads
//! wraps it in one and keeps the lock for the single call of
//! [`RateLimiter::check_and_record`], which both compares and records.

use vstd::prelude::*;

verus! {

/// The cooldown between two captures unless configured otherwise, in
/// milliseconds.
pub const DEFAULT_COOLDOWN_MS: u64 = 1000;

/// Cooldown limiter: remembers the instant of the last capture it let pass.
#[derive(Debug)]
pub struct RateLimiter {
    /// Least time between two captures, in milliseconds.
    pub cooldown_ms: u64,
    /// Instant of the last capture that was let pass, if any.
    pub last_capture: Option<u64>,
}

/// `ms` milliseconds rounded up to whole seconds.
pub open spec fn whole_seconds(ms: int) -> int {
    (ms + 999) / 1000
}

impl RateLimiter {
    /// Time since the last recorded capture as seen at `now`; zero when the
    /// clock reads earlier than the record.
    pub open spec fn elapsed(self, now: u64) -> int
        recommends
            self.last_capture is Some,
    {
        let last = self.last_capture->0;
        if now >= last {
            now - last
        } else {
            0
        }
    }

    /// A call at `now` is let pass: nothing was recorded yet, or the
    /// cooldown has elapsed since the record.
    pub open spec fn admits(self, now: u64) -> bool {
        self.last_capture is None || self.elapsed(now) >= self.cooldown_ms
    }

    /// Seconds a caller refused at `now` has to wait, rounded up.
    pub open spec fn wait_seconds(self, now: u64) -> int
        recommends
            !self.admits(now),
    {
        whole_seconds(self.cooldown_ms - self.elapsed(now))
    }

    /// What a call at `now` returns.
    pub open spec fn decision(self, now: u64) -> Result<(), u64> {
        if self.admits(now) {
            Ok(())
        } else {
            Err(self.wait_seconds(now) as u64)
        }
    }

    /// The limiter after a call at `now`: the record moves to `now` exactly
    /// when the call was let pass.
    pub open spec fn after(self, now: u64) -> RateLimiter {
        if self.admits(now) {
            RateLimiter { cooldown_ms: self.cooldown_ms, last_capture: Some(now) }
        } else {
            self
        }
    }

    /// A limiter with the given cooldown that has recorded nothing.
    pub fn new(cooldown_ms: u64) -> (r: Self)
        ensures
            r.cooldown_ms == cooldown_ms,
            r.last_capture is None,
    {
        RateLimiter { cooldown_ms, last_capture: None }
    }

    /// Compares and records in one step. Lets the call pass and records
    /// `now` when nothing was recorded or the cooldown has elapsed;
    /// otherwise leaves the record alone and reports how many whole
    /// seconds remain, rounded up.
    pub fn check_and_record(&mut self, now: u64) -> (r: Result<(), u64>)
        ensures
            r == old(self).decision(now),
            *final(self) == old(self).after(now),
            r matches Err(wait) ==> 1 <= wait && (wait - 1) * 1000 < old(self).cooldown_ms
                - old(self).elapsed(now) <= wait * 1000,
    {
        match self.last_capture {
            None => {
                self.last_capture = Some(now);
                Ok(())
            },
            Some(last) => {
                let elapsed: u64 = if now >= last {
                    now - last
                } else {
                    0
                };
                if elapsed >= self.cooldown_ms {
                    self.last_capture = Some(now);
                    Ok(())
                } else {
                    let remaining: u64 = self.cooldown_ms - elapsed;
                    let wait: u64 = if remaining % 1000 == 0 {
                        remaining / 1000
                    } else {
                        remaining / 1000 + 1
                    };
                    Err(wait)
                }
            },
        }
    }
}

impl Default for RateLimiter {
    fn default() -> (r: Self)
        ensures
            r.cooldown_ms == DEFAULT_COOLDOWN_MS,
            r.last_capture is None,
    {
        RateLimiter::new(DEFAULT_COOLDOWN_MS)
    }
}

/// Of two calls at `first` and then `second`, less than the cooldown
/// apart and both inside the window of the capture that is on record
/// after the first, the second is refused with a wait of at least one
/// second, and the record stays as the first call left it.
pub proof fn law_second_call_in_window_waits(limiter: RateLimiter, first: u64, second: u64)
    requires
        first <= second,
        second - first < limiter.cooldown_ms,
        limiter.after(first).elapsed(second) < limiter.cooldown_ms,
    ensures
        limiter.after(first).decision(second) is Err,
        limiter.after(first).decision(second)->Err_0 >= 1,
        limiter.after(first).after(second) == limiter.after(first),
{
    let then = limiter.after(first);
    assert(then.last_capture is Some);
    let remaining = then.cooldown_ms - then.elapsed(second);
    assert(1 <= remaining <= u64::MAX);
    assert(1 <= whole_seconds(remaining) <= u64::MAX);
}

/// A call that is let pass opens a window of one cooldown: every call
/// inside it is refused with a wait of at least one second.
pub proof fn law_call_after_capture_waits(limiter: RateLimiter, first: u64, second: u64)
    requires
        limiter.admits(first),
        first <= second,
        second - first < limiter.cooldown_ms,
    ensures
        limiter.after(first).decision(second) is Err,
        limiter.after(first).decision(second)->Err_0 >= 1,
{
    law_second_call_in_window_waits(limiter, first, second);
}

/// Once the cooldown has elapsed since the capture on record, a call is
/// let pass and becomes the new record.
pub proof fn law_call_after_cooldown_passes(limiter: RateLimiter, now: u64)
    requires
        limiter.last_capture matches Some(last) ==> now >= last && now - last >= limiter.cooldown_ms,
    ensures
        limiter.decision(now) is Ok,
        limiter.after(now).last_capture == Some(now),
{
}

} // verus!
