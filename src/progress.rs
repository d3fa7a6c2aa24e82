use vstd::prelude::*;

verus! {

/// The largest percentage that is ever reported.
pub const FULL_PERCENT: u64 = 100;

/// `floor(units * 100 / total)`, clamped to 100. Meaningful for `total > 0`.
pub open spec fn percent_of(units: nat, total: nat) -> nat {
    if total == 0 {
        0
    } else if units * 100 / total >= 100 {
        100
    } else {
        units * 100 / total
    }
}

/// Emit-on-change: a new value is reported only when it exceeds the last one.
pub open spec fn throttled(previous: u64, new: u64) -> Option<u64> {
    if new > previous {
        Some(new)
    } else {
        None
    }
}

/// What one observation reports, given the last reported value.
pub open spec fn observed(last: u64, units: u64, total: Option<u64>) -> Option<u64> {
    match total {
        Some(t) if t > 0 => throttled(last, percent_of(units as nat, t as nat) as u64),
        _ => None,
    }
}

/// What the end of a transfer reports: 100 once, if it was not reached yet.
pub open spec fn finished(last: u64, total: Option<u64>) -> Option<u64> {
    match total {
        Some(t) if t > 0 => throttled(last, 100),
        _ => None,
    }
}

/// The last reported value after a report `r` (unchanged when nothing is reported).
pub open spec fn after_report(last: u64, r: Option<u64>) -> u64 {
    match r {
        Some(p) => p,
        None => last,
    }
}

/// Computes `floor(units * 100 / total)`, clamped to `[0, 100]`.
pub fn percentage(units: u64, total: u64) -> (r: u64)
    requires
        total > 0,
    ensures
        r as nat == percent_of(units as nat, total as nat),
        r <= 100,
{
    let scaled: u128 = (units as u128) * 100;
    let p: u128 = scaled / (total as u128);
    if p >= 100 {
        FULL_PERCENT
    } else {
        p as u64
    }
}

/// The throttling rule on its own: `Some(new)` exactly when `new > previous`.
pub fn throttle(previous: u64, new: u64) -> (r: Option<u64>)
    ensures
        r == throttled(previous, new),
{
    if new > previous {
        Some(new)
    } else {
        None
    }
}

/// Stateful percentage calculator: reports each percentage at most once, in
/// strictly increasing order.
pub struct ProgressTracker {
    last: u64,
}

impl View for ProgressTracker {
    type V = u64;

    /// The last percentage reported (0 before any report).
    closed spec fn view(&self) -> u64 {
        self.last
    }
}

impl ProgressTracker {
    pub fn new() -> (r: ProgressTracker)
        ensures
            r@ == 0,
    {
        ProgressTracker { last: 0 }
    }

    /// The last percentage reported, 0 before the first report.
    pub fn last_reported(&self) -> (r: u64)
        ensures
            r == self@,
    {
        self.last
    }

    /// Records that `units` have been transferred out of `total` and returns the
    /// percentage to report, if it is new. An unknown or zero total never reports.
    pub fn observe(&mut self, units: u64, total: Option<u64>) -> (r: Option<u64>)
        ensures
            r == observed(old(self)@, units, total),
            final(self)@ == after_report(old(self)@, r),
    {
        match total {
            Some(t) => {
                if t > 0 {
                    let p = percentage(units, t);
                    let r = throttle(self.last, p);
                    if let Some(v) = r {
                        self.last = v;
                    }
                    r
                } else {
                    None
                }
            },
            None => None,
        }
    }

    /// Marks the end of a transfer: reports 100 if the total is known and 100
    /// has not been reported yet.
    pub fn finish(&mut self, total: Option<u64>) -> (r: Option<u64>)
        ensures
            r == finished(old(self)@, total),
            final(self)@ == after_report(old(self)@, r),
    {
        match total {
            Some(t) => {
                if t > 0 {
                    let r = throttle(self.last, FULL_PERCENT);
                    if let Some(v) = r {
                        self.last = v;
                    }
                    r
                } else {
                    None
                }
            },
            None => None,
        }
    }
}

} // verus!
