//! A repeating interval timer.

use vstd::prelude::*;
use bevy::prelude::Timer;
use crate::clock::{clock_state, timer_elapsed_ns, timer_finished, timer_new, timer_tick};

verus! {

/// A timer that comes due each time its interval has passed and carries the
/// remainder over into the next interval.
#[derive(Debug)]
pub struct Ticker {
    timer: Timer,
    interval_ns: u64,
}

/// The model of a [`Ticker`]: its interval and the time counted within the
/// current interval, both in nanoseconds.
pub struct TickerState {
    pub interval: nat,
    pub elapsed: nat,
}

impl TickerState {
    /// The interval is positive and the counted time lies within it.
    pub open spec fn valid(self) -> bool {
        0 <= self.elapsed < self.interval
    }

    /// Whether a tick of `delta` nanoseconds reaches the end of the interval.
    pub open spec fn comes_due(self, delta: nat) -> bool {
        self.elapsed + delta >= self.interval
    }

    /// The state after a tick of `delta` nanoseconds.
    pub open spec fn after(self, delta: nat) -> TickerState {
        TickerState { elapsed: (self.elapsed + delta) % self.interval, ..self }
    }
}

impl View for Ticker {
    type V = TickerState;

    closed spec fn view(&self) -> TickerState {
        TickerState { interval: self.interval_ns as nat, elapsed: clock_state(self.timer).elapsed }
    }
}

impl Ticker {
    /// The engine timer behind the ticker is a running, repeating timer of
    /// the ticker's interval, and the model is valid.
    pub closed spec fn wf(&self) -> bool {
        &&& clock_state(self.timer).repeating
        &&& !clock_state(self.timer).paused
        &&& clock_state(self.timer).duration == self.interval_ns
        &&& self@.valid()
    }

    /// A well-formed ticker has a valid model.
    pub proof fn lemma_wf_valid(&self)
        requires
            self.wf(),
        ensures
            self@.valid(),
    {
    }

    /// A ticker of the given interval with no time counted.
    pub fn new(interval_ns: u64) -> (t: Ticker)
        requires
            interval_ns > 0,
        ensures
            t.wf(),
            t@ == (TickerState { interval: interval_ns as nat, elapsed: 0 }),
    {
        Ticker { timer: timer_new(interval_ns, true), interval_ns }
    }

    /// The interval, in nanoseconds.
    pub fn interval_ns(&self) -> (ns: u64)
        ensures
            ns == self@.interval,
    {
        self.interval_ns
    }

    /// The time counted within the current interval, in nanoseconds.
    pub fn elapsed_ns(&self) -> (ns: u64)
        requires
            self.wf(),
        ensures
            ns == self@.elapsed,
    {
        timer_elapsed_ns(&self.timer)
    }

    /// Counts `delta_ns` nanoseconds and reports whether the interval came
    /// due. However long the step, it comes due at most once.
    ///
    /// A step of an interval or more is handed to the engine as one interval
    /// plus the step's remainder, which leaves the same time counted and
    /// keeps the engine's count of completed intervals small.
    pub fn tick(&mut self, delta_ns: u64) -> (due: bool)
        requires
            old(self).wf(),
        ensures
            final(self).wf(),
            final(self)@ == old(self)@.after(delta_ns as nat),
            due == old(self)@.comes_due(delta_ns as nat),
    {
        let interval: u64 = self.interval_ns;
        let ghost e: int = clock_state(self.timer).elapsed as int;
        proof {
            lemma_reduced_step(e, delta_ns as int, interval as int);
        }
        let step: u64 = if delta_ns < interval {
            delta_ns
        } else {
            interval + delta_ns % interval
        };
        timer_tick(&mut self.timer, step);
        timer_finished(&self.timer)
    }
}

/// Replacing a step `d` of at least one interval `i` by `i + d % i` changes
/// neither the remainder counted nor whether the interval came due, does not
/// lengthen the step, and completes at most two intervals.
proof fn lemma_reduced_step(e: int, d: int, i: int)
    requires
        0 <= e < i,
        0 <= d,
    ensures
        d >= i ==> i + d % i <= d,
        d >= i ==> (e + (i + d % i)) % i == (e + d) % i,
        d >= i ==> (e + (i + d % i)) / i <= 2,
        d < i ==> (e + d) / i <= 1,
        e + d < i ==> (e + d) % i == e + d,
{
    if d >= i {
        let q: int = d / i;
        let r: int = d % i;
        vstd::arithmetic::div_mod::lemma_fundamental_div_mod(d, i);
        vstd::arithmetic::div_mod::lemma_mod_bound(d, i);
        assert(q >= 1) by (nonlinear_arith)
            requires
                d == i * q + r,
                0 <= r < i,
                d >= i,
                i > 0,
        ;
        assert(i * q >= i) by (nonlinear_arith)
            requires
                q >= 1,
                i > 0,
        ;
        // e + d == (e + i + r) + i * (q - 1)
        assert(e + d == i * (q - 1) + (e + i + r)) by (nonlinear_arith)
            requires
                d == i * q + r,
        ;
        vstd::arithmetic::div_mod::lemma_mod_multiples_vanish(q - 1, e + i + r, i);
        assert((e + i + r) / i <= 2) by (nonlinear_arith)
            requires
                0 <= e < i,
                0 <= r < i,
                i > 0,
        ;
    } else {
        assert((e + d) / i <= 1) by (nonlinear_arith)
            requires
                0 <= e < i,
                0 <= d < i,
        ;
    }
    if e + d < i {
        vstd::arithmetic::div_mod::lemma_small_mod((e + d) as nat, i as nat);
    }
}

} // verus!
