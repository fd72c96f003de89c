//! When the next snapshot of the process table is due.
//!
//! Times are readings of a monotonic clock in nanoseconds. The scheduler never
//! reads a clock itself: every question it answers takes the present reading.

use vstd::prelude::*;

verus! {

/// The default time between two snapshots: one second.
pub const DEFAULT_INTERVAL: u64 = 1_000_000_000;

/// Mathematical model of the schedule: the time between two snapshots and the
/// time of the last one.
pub struct SchedulerView {
    pub interval: nat,
    pub last_tick: nat,
}

impl SchedulerView {
    /// The time that has passed since the last snapshot, and zero where the
    /// clock reads less than it did then.
    pub open spec fn elapsed(self, now: nat) -> nat {
        if now >= self.last_tick {
            (now - self.last_tick) as nat
        } else {
            0
        }
    }

    /// The time left until the next snapshot is due, floored at zero. This is
    /// the longest that the loop may wait for a key.
    pub open spec fn remaining(self, now: nat) -> nat {
        if self.elapsed(now) >= self.interval {
            0
        } else {
            (self.interval - self.elapsed(now)) as nat
        }
    }

    /// Whether the time since the last snapshot has reached the interval.
    pub open spec fn due(self, now: nat) -> bool {
        self.elapsed(now) >= self.interval
    }

    /// The schedule after a snapshot taken at `now`.
    pub open spec fn reset(self, now: nat) -> SchedulerView {
        SchedulerView { interval: self.interval, last_tick: now }
    }
}

/// A snapshot is due exactly when no waiting time is left, and the waiting
/// time never exceeds the interval.
pub proof fn lemma_due_when_nothing_remains(s: SchedulerView, now: nat)
    ensures
        s.due(now) <==> s.remaining(now) == 0,
        s.remaining(now) <= s.interval,
        s.remaining(now) + s.elapsed(now) >= s.interval,
{
}

/// Right after a snapshot the whole interval remains, and the next snapshot is
/// due once the clock has moved on by the interval.
pub proof fn lemma_reset_restarts_interval(s: SchedulerView, now: nat, later: nat)
    ensures
        s.reset(now).elapsed(now) == 0,
        s.reset(now).remaining(now) == s.interval,
        later >= now ==> (s.reset(now).due(later) <==> later - now >= s.interval),
{
}

/// Decides when the process table is to be read again.
#[derive(Clone, Copy, Debug)]
pub struct RefreshScheduler {
    interval: u64,
    last_tick: u64,
}

impl View for RefreshScheduler {
    type V = SchedulerView;

    closed spec fn view(&self) -> SchedulerView {
        SchedulerView { interval: self.interval as nat, last_tick: self.last_tick as nat }
    }
}

impl RefreshScheduler {
    /// A schedule with the given interval whose last snapshot was taken at
    /// `now`.
    pub fn new(interval: u64, now: u64) -> (s: RefreshScheduler)
        ensures
            s@ == (SchedulerView { interval: interval as nat, last_tick: now as nat }),
    {
        RefreshScheduler { interval, last_tick: now }
    }

    /// The time between two snapshots.
    pub fn interval(&self) -> (t: u64)
        ensures
            t == self@.interval,
    {
        self.interval
    }

    /// The time of the last snapshot.
    pub fn last_tick(&self) -> (t: u64)
        ensures
            t == self@.last_tick,
    {
        self.last_tick
    }

    /// The time left until the next snapshot is due, floored at zero.
    pub fn remaining(&self, now: u64) -> (t: u64)
        ensures
            t == self@.remaining(now as nat),
    {
        let elapsed: u64 = now.saturating_sub(self.last_tick);
        self.interval.saturating_sub(elapsed)
    }

    /// Whether a snapshot is due at `now`.
    pub fn is_due(&self, now: u64) -> (due: bool)
        ensures
            due == self@.due(now as nat),
    {
        now.saturating_sub(self.last_tick) >= self.interval
    }

    /// Restarts the interval: the last snapshot was taken at `now`.
    pub fn reset(&mut self, now: u64)
        ensures
            final(self)@ == old(self)@.reset(now as nat),
        no_unwind
    {
        self.last_tick = now;
    }
}

} // verus!
