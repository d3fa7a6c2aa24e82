use vstd::prelude::*;

verus! {

/// More than `threshold` time units have passed from `last` to `now`.
pub open spec fn stale(last: u64, threshold: u64, now: u64) -> bool {
    now > last && now - last > threshold
}

/// Staleness detector: measures the time since the last observed activity.
/// Times are plain numbers (for instance milliseconds) read by the caller.
pub struct Watchdog {
    last_activity: u64,
    threshold: u64,
}

impl View for Watchdog {
    /// `(time of the last activity, threshold)`.
    type V = (u64, u64);

    closed spec fn view(&self) -> (u64, u64) {
        (self.last_activity, self.threshold)
    }
}

impl Watchdog {
    /// A watchdog whose clock starts at `now`.
    pub fn new(now: u64, threshold: u64) -> (r: Watchdog)
        ensures
            r@ == (now, threshold),
    {
        Watchdog { last_activity: now, threshold }
    }

    /// Resets the last-activity clock to `now`.
    pub fn touch(&mut self, now: u64)
        ensures
            final(self)@ == (now, old(self)@.1),
    {
        self.last_activity = now;
    }

    /// Whether more than the threshold has elapsed since the last activity.
    pub fn is_stale(&self, now: u64) -> (r: bool)
        ensures
            r == stale(self@.0, self@.1, now),
    {
        now > self.last_activity && now - self.last_activity > self.threshold
    }

    /// The latest time at which activity still counts as on time.
    pub fn deadline(&self) -> (r: u64)
        ensures
            r as int == if self@.0 + self@.1 > u64::MAX { u64::MAX as int } else { self@.0 + self@.1 },
    {
        self.last_activity.saturating_add(self.threshold)
    }

    pub fn last_activity(&self) -> (r: u64)
        ensures
            r == self@.0,
    {
        self.last_activity
    }

    pub fn threshold(&self) -> (r: u64)
        ensures
            r == self@.1,
    {
        self.threshold
    }
}

} // verus!
