//! A timer that spaces polls at a fixed nominal interval, whatever the time
//! that the work between two polls took.
use vstd::prelude::*;

verus! {

/// The time elapsed from `baseline` to `now`, on a clock that counts
/// milliseconds; a reading before the baseline counts as no time at all.
pub open spec fn elapsed(baseline: u64, now: u64) -> nat {
    if now >= baseline {
        (now - baseline) as nat
    } else {
        0
    }
}

/// How long to sleep at `now` before the next poll: nothing on the first
/// poll, nothing when a whole interval has already passed since the
/// baseline, and otherwise what is left of the interval.
pub open spec fn sleep_before_poll(interval: u64, baseline: Option<u64>, now: u64) -> nat {
    match baseline {
        None => 0,
        Some(b) => if elapsed(b, now) < interval {
            (interval - elapsed(b, now)) as nat
        } else {
            0
        },
    }
}

/// The timer's state: the interval and the start of the last poll, both in
/// milliseconds of a monotonic clock chosen by the caller.
pub struct Timer {
    interval_ms: u64,
    last: Option<u64>,
}

impl Timer {
    /// The nominal interval between two polls.
    pub closed spec fn interval(&self) -> u64 {
        self.interval_ms
    }

    /// The start of the last poll, if a poll has started.
    pub closed spec fn baseline(&self) -> Option<u64> {
        self.last
    }

    /// A timer with the given interval that has not started a poll yet.
    pub fn new(interval_ms: u64) -> (t: Timer)
        ensures
            t.interval() == interval_ms,
            t.baseline() is None,
    {
        Timer { interval_ms: interval_ms, last: None }
    }

    /// The nominal interval between two polls, in milliseconds.
    pub fn interval_ms(&self) -> (r: u64)
        ensures
            r == self.interval(),
    {
        self.interval_ms
    }

    /// Starts a wait at clock reading `now_ms`. Returns how many
    /// milliseconds the caller sleeps before the next poll, and records
    /// `now_ms` as the baseline. A caller that sleeps records the clock
    /// reading taken after waking with `woke`.
    pub fn wait(&mut self, now_ms: u64) -> (sleep_ms: u64)
        ensures
            sleep_ms == sleep_before_poll(old(self).interval(), old(self).baseline(), now_ms),
            final(self).interval() == old(self).interval(),
            final(self).baseline() == Some(now_ms),
    {
        let sleep_ms: u64 = match self.last {
            None => 0,
            Some(b) => {
                let passed: u64 = now_ms.saturating_sub(b);
                if passed < self.interval_ms {
                    self.interval_ms - passed
                } else {
                    0
                }
            },
        };
        self.last = Some(now_ms);
        sleep_ms
    }

    /// Records the clock reading `now_ms`, taken after the sleep that `wait`
    /// asked for, as the baseline.
    pub fn woke(&mut self, now_ms: u64)
        ensures
            final(self).interval() == old(self).interval(),
            final(self).baseline() == Some(now_ms),
    {
        self.last = Some(now_ms);
    }
}

/// A duration given as whole seconds and the nanoseconds beyond them, in
/// whole milliseconds; a duration too long for the result gives its largest
/// value.
pub fn to_millis(secs: u64, subsec_nanos: u32) -> (ms: u64)
    ensures
        ms == if secs * 1000 + subsec_nanos / 1_000_000 <= u64::MAX {
            secs * 1000 + subsec_nanos / 1_000_000
        } else {
            u64::MAX as int
        },
{
    let millis: u64 = (subsec_nanos / 1_000_000) as u64;
    match secs.checked_mul(1000) {
        Some(whole) => whole.saturating_add(millis),
        None => u64::MAX,
    }
}

/// When the work since the last poll took less than the interval, and the
/// clock is read after a sleep of at least the length that the timer asked
/// for, that reading, the next baseline, lies at least one interval after
/// the last one.
pub proof fn lemma_baselines_spaced(interval: u64, last: u64, now: u64, woke: u64)
    requires
        last <= now,
        now - last < interval,
        woke >= now + sleep_before_poll(interval, Some(last), now),
    ensures
        woke - last >= interval,
{
}

/// When the work since the last poll took at least the interval, the timer
/// does not sleep, and the current reading becomes the baseline: no debt is
/// carried, and a later wait measures a whole interval from that reading.
pub proof fn lemma_slow_work_never_sleeps(interval: u64, last: u64, now: u64, later: u64)
    requires
        last <= now,
        now - last >= interval,
        now <= later,
        later - now < interval,
    ensures
        sleep_before_poll(interval, Some(last), now) == 0,
        sleep_before_poll(interval, Some(now), later) == interval - (later - now),
{
}

} // verus!
