//! The periodic preemption timer.
//!
//! The hardware exposes a read-only 64-bit monotonic counter and a writable
//! 64-bit compare register; when the counter reaches the compare value a
//! machine-timer interrupt is raised. This module keeps the kernel's image of
//! that compare register and the rearm policy: every tick rearms the next
//! deadline relative to the *current* counter value, not the previous
//! deadline, so a delayed tick never makes the next one fire immediately to
//! catch up. The volatile reads and writes of the counter and compare
//! registers themselves are the caller's concern; this module only decides
//! which value to write.

use vstd::prelude::*;

verus! {

/// Tick period used when no other interval is configured.
pub const DEFAULT_INTERVAL: u64 = 10000000;

/// Abstract image of the timer: the fixed tick period, the deadline most
/// recently armed, and whether `init` has run.
pub struct TimerView {
    pub interval: u64,
    pub mtimecmp: u64,
    pub armed: bool,
}

/// Owns the countdown/compare state of the machine timer, abstractly.
///
/// `armed` records whether `init` has run: a timer interrupt before the first
/// deadline was armed is a programming-order violation
/// (`TimerMisconfiguration`), so `handle_interrupt` demands `armed` instead of
/// handling that case at run time.
pub struct Timer {
    interval: u64,
    mtimecmp: u64,
    armed: bool,
}

impl View for Timer {
    type V = TimerView;

    closed spec fn view(&self) -> TimerView {
        TimerView { interval: self.interval, mtimecmp: self.mtimecmp, armed: self.armed }
    }
}

impl Timer {
    /// A timer with the default tick period, not yet armed.
    pub fn new() -> (t: Timer)
        ensures
            t@.interval == DEFAULT_INTERVAL,
            t@.mtimecmp == 0,
            !t@.armed,
    {
        Timer { interval: DEFAULT_INTERVAL, mtimecmp: 0, armed: false }
    }

    /// The fixed tick period.
    pub fn interval(&self) -> (r: u64)
        ensures
            r == self@.interval,
    {
        self.interval
    }

    /// The kernel's image of the hardware compare register: the deadline most
    /// recently armed.
    pub fn mtimecmp(&self) -> (r: u64)
        ensures
            r == self@.mtimecmp,
    {
        self.mtimecmp
    }

    /// Whether `init` has armed the first deadline.
    pub fn armed(&self) -> (r: bool)
        ensures
            r == self@.armed,
    {
        self.armed
    }

    /// Enables the timer source and arms the first deadline at
    /// `now + interval`. `now` is the monotonic counter read by the caller.
    pub fn init(&mut self, now: u64) -> (deadline: u64)
        requires
            now + old(self)@.interval <= u64::MAX,
        ensures
            final(self)@.armed,
            final(self)@.interval == old(self)@.interval,
            final(self)@.mtimecmp == now + old(self)@.interval,
            deadline == final(self)@.mtimecmp,
    {
        self.armed = true;
        self.set_next_timeout(now)
    }

    /// Arms the next deadline at `now + interval` and returns the value the
    /// caller must write to the hardware compare register.
    pub fn set_next_timeout(&mut self, now: u64) -> (deadline: u64)
        requires
            now + old(self)@.interval <= u64::MAX,
        ensures
            final(self)@.mtimecmp == now + old(self)@.interval,
            final(self)@.interval == old(self)@.interval,
            final(self)@.armed == old(self)@.armed,
            deadline == final(self)@.mtimecmp,
    {
        self.mtimecmp = now + self.interval;
        self.mtimecmp
    }

    /// Acknowledges the current tick and rearms the next deadline relative to
    /// the fresh counter value `now`, independent of any earlier overrun.
    pub fn handle_interrupt(&mut self, now: u64) -> (deadline: u64)
        requires
            old(self)@.armed,
            now + old(self)@.interval <= u64::MAX,
        ensures
            final(self)@.armed,
            final(self)@.interval == old(self)@.interval,
            final(self)@.mtimecmp == now + old(self)@.interval,
            deadline == final(self)@.mtimecmp,
    {
        self.set_next_timeout(now)
    }
}

/// The compare value after a run of ticks that observed the counter at the
/// times in `ticks`, starting from compare value `cmp0`. Each tick rearms the
/// deadline as its own counter reading plus the interval, as
/// `handle_interrupt` does.
pub open spec fn cmp_after_ticks(interval: u64, cmp0: int, ticks: Seq<u64>) -> int
    decreases ticks.len(),
{
    if ticks.len() == 0 {
        cmp0
    } else {
        cmp_after_ticks(interval, ticks[0] + interval, ticks.skip(1))
    }
}

/// Timer rearm drift: after any run of ticks, the compare register equals the
/// last tick's counter reading plus the interval — each tick's deadline is
/// relative to actual elapsed time, so earlier overruns leave no trace.
pub proof fn lemma_rearm_drift(interval: u64, cmp0: int, ticks: Seq<u64>)
    requires
        ticks.len() > 0,
    ensures
        cmp_after_ticks(interval, cmp0, ticks) == ticks[ticks.len() - 1] + interval,
    decreases ticks.len(),
{
    let rest = ticks.skip(1);
    assert(cmp_after_ticks(interval, cmp0, ticks) == cmp_after_ticks(
        interval,
        ticks[0] + interval,
        rest,
    ));
    if ticks.len() == 1 {
        assert(rest.len() == 0);
        assert(cmp_after_ticks(interval, ticks[0] + interval, rest) == ticks[0] + interval);
    } else {
        lemma_rearm_drift(interval, ticks[0] + interval, rest);
        assert(rest[rest.len() - 1] == ticks[ticks.len() - 1]);
    }
}

} // verus!
