//! Rate-limiting of "check for a newer release": at most one check per
//! interval, with the last check's time kept for the process's lifetime.
use vstd::prelude::*;

verus! {

/// The least time between two checks, in seconds.
pub const CHECK_INTERVAL_SECONDS: u64 = 3600;

/// A check at `now` is held back: one was recorded less than an interval
/// before.
pub open spec fn throttled(last_checked: Option<u64>, now: u64) -> bool {
    last_checked matches Some(t) && (now as int) - (t as int) < CHECK_INTERVAL_SECONDS as int
}

/// The time of the last check, if any.
pub struct UpdateCheckThrottle {
    last_checked: Option<u64>,
}

impl UpdateCheckThrottle {
    /// The time of the last recorded check, in seconds since the Unix epoch.
    pub closed spec fn last(&self) -> Option<u64> {
        self.last_checked
    }

    /// A throttle with no check recorded.
    pub fn new() -> (r: UpdateCheckThrottle)
        ensures
            r.last() is None,
    {
        UpdateCheckThrottle { last_checked: None }
    }

    /// Whether a check at `now` may go ahead.
    pub fn should_check(&self, now: u64) -> (r: bool)
        ensures
            r == !throttled(self.last(), now),
    {
        match self.last_checked {
            Some(t) => now >= t && now - t >= CHECK_INTERVAL_SECONDS,
            None => true,
        }
    }

    /// Records a check made at `now`.
    pub fn record_checked(&mut self, now: u64)
        ensures
            final(self).last() == Some(now),
    {
        self.last_checked = Some(now);
    }
}

} // verus!
