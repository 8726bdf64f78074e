//! The session's countdown: a one-shot timer that waits, paused, for the
//! first collection, then runs to its end and stays there.

use vstd::prelude::*;
use bevy::prelude::Timer;
use crate::clock::{
    clock_state, timer_elapsed_ns, timer_finished, timer_new, timer_pause, timer_paused,
    timer_set_elapsed_ns, timer_tick, timer_unpause, NANOS_PER_SEC,
};

verus! {

/// A one-shot timer that is created paused.
#[derive(Debug)]
pub struct Countdown {
    timer: Timer,
    duration_ns: u64,
}

/// The model of a [`Countdown`]. Spans are in nanoseconds.
pub struct CountdownState {
    /// The configured length.
    pub duration: nat,
    /// The time counted so far.
    pub elapsed: nat,
    /// Whether the countdown is waiting to be started.
    pub paused: bool,
    /// Whether the countdown has run to its end.
    pub finished: bool,
}

impl CountdownState {
    /// The counted time does not pass the configured length, and a
    /// countdown that has finished is not waiting to be started.
    pub open spec fn valid(self) -> bool {
        &&& self.elapsed <= self.duration
        &&& self.finished ==> !self.paused
    }

    /// The state a new countdown of `duration` nanoseconds starts in.
    pub open spec fn initial(duration: nat) -> CountdownState {
        CountdownState { duration, elapsed: 0, paused: true, finished: false }
    }

    /// The state after a tick of `delta` nanoseconds: unchanged while paused
    /// or once finished; otherwise the time is added, and on reaching the
    /// configured length the countdown stops there, finished.
    pub open spec fn after(self, delta: nat) -> CountdownState {
        if self.paused || self.finished {
            self
        } else if self.elapsed + delta < self.duration {
            CountdownState { elapsed: self.elapsed + delta, ..self }
        } else {
            CountdownState { elapsed: self.duration, finished: true, ..self }
        }
    }

    /// The state after the countdown is started.
    pub open spec fn started(self) -> CountdownState {
        CountdownState { paused: false, ..self }
    }

    /// The whole seconds counted so far.
    pub open spec fn elapsed_secs(self) -> nat {
        self.elapsed / (NANOS_PER_SEC as nat)
    }

    /// The whole seconds left until the configured length is reached.
    pub open spec fn remaining_secs(self) -> nat {
        ((self.duration - self.elapsed) / (NANOS_PER_SEC as int)) as nat
    }

    /// The state after the counted time is set back by `secs` seconds: the
    /// counted time less `secs` seconds, to the nanosecond, and zero where
    /// fewer than `secs` seconds have been counted.
    pub open spec fn rewound(self, secs: nat) -> CountdownState {
        CountdownState {
            elapsed: if self.elapsed >= secs * NANOS_PER_SEC {
                (self.elapsed - secs * NANOS_PER_SEC) as nat
            } else {
                0
            },
            ..self
        }
    }
}

impl View for Countdown {
    type V = CountdownState;

    closed spec fn view(&self) -> CountdownState {
        CountdownState {
            duration: self.duration_ns as nat,
            elapsed: clock_state(self.timer).elapsed,
            paused: clock_state(self.timer).paused,
            finished: clock_state(self.timer).finished,
        }
    }
}

impl Countdown {
    /// The engine timer behind the countdown is a one-shot timer of the
    /// countdown's length, and the model is valid.
    pub closed spec fn wf(&self) -> bool {
        &&& !clock_state(self.timer).repeating
        &&& clock_state(self.timer).duration == self.duration_ns
        &&& self@.valid()
    }

    /// A well-formed countdown has a valid model.
    pub proof fn lemma_wf_valid(&self)
        requires
            self.wf(),
        ensures
            self@.valid(),
    {
    }

    /// A paused countdown of the given length with no time counted.
    pub fn new(duration_ns: u64) -> (c: Countdown)
        ensures
            c.wf(),
            c@ == CountdownState::initial(duration_ns as nat),
    {
        let mut timer: Timer = timer_new(duration_ns, false);
        timer_pause(&mut timer);
        Countdown { timer, duration_ns }
    }

    /// Whether the countdown is still waiting to be started.
    pub fn is_paused(&self) -> (r: bool)
        ensures
            r == self@.paused,
    {
        timer_paused(&self.timer)
    }

    /// Whether the countdown has run to its end.
    pub fn is_finished(&self) -> (r: bool)
        ensures
            r == self@.finished,
    {
        timer_finished(&self.timer)
    }

    /// Starts the countdown. Starting a running countdown changes nothing.
    pub fn start(&mut self)
        requires
            old(self).wf(),
        ensures
            final(self).wf(),
            final(self)@ == old(self)@.started(),
    {
        timer_unpause(&mut self.timer);
    }

    /// Counts `delta_ns` nanoseconds and reports whether the countdown is
    /// finished afterwards.
    pub fn tick(&mut self, delta_ns: u64) -> (finished: bool)
        requires
            old(self).wf(),
        ensures
            final(self).wf(),
            final(self)@ == old(self)@.after(delta_ns as nat),
            finished == final(self)@.finished,
    {
        timer_tick(&mut self.timer, delta_ns);
        timer_finished(&self.timer)
    }

    /// The whole seconds counted so far.
    pub fn elapsed_secs(&self) -> (secs: u64)
        requires
            self.wf(),
        ensures
            secs == self@.elapsed_secs(),
    {
        timer_elapsed_ns(&self.timer) / NANOS_PER_SEC
    }

    /// The whole seconds left until the countdown finishes.
    pub fn remaining_secs(&self) -> (secs: u64)
        requires
            self.wf(),
        ensures
            secs == self@.remaining_secs(),
    {
        let elapsed: u64 = timer_elapsed_ns(&self.timer);
        (self.duration_ns - elapsed) / NANOS_PER_SEC
    }

    /// Sets the counted time back by `secs` seconds, and to zero where fewer
    /// than `secs` seconds have been counted.
    pub fn rewind(&mut self, secs: u64)
        requires
            old(self).wf(),
        ensures
            final(self).wf(),
            final(self)@ == old(self)@.rewound(secs as nat),
    {
        let elapsed: u64 = timer_elapsed_ns(&self.timer);
        let whole: u64 = elapsed / NANOS_PER_SEC;
        let kept: u64 = if whole >= secs {
            elapsed - secs * NANOS_PER_SEC
        } else {
            0
        };
        timer_set_elapsed_ns(&mut self.timer, kept);
    }
}

/// A tick leaves a paused countdown as it was: its counted time does not
/// advance.
pub proof fn lemma_paused_stands_still(s: CountdownState, delta: nat)
    requires
        s.paused,
    ensures
        s.after(delta) == s,
{
}

/// A running countdown finishes on exactly the tick that brings the counted
/// time to the configured length, and stops there.
pub proof fn lemma_finishes_on_reaching(s: CountdownState, delta: nat)
    requires
        s.valid(),
        !s.paused,
        !s.finished,
    ensures
        s.after(delta).finished <==> s.elapsed + delta >= s.duration,
        s.after(delta).finished ==> s.after(delta).elapsed == s.duration,
        !s.after(delta).finished ==> s.after(delta).elapsed == s.elapsed + delta,
{
}

/// Once finished, a countdown stays finished through every tick and start,
/// and no tick changes it.
pub proof fn lemma_finished_is_final(s: CountdownState, delta: nat)
    requires
        s.finished,
    ensures
        s.after(delta) == s,
        s.started().finished,
{
}

/// Ticks, starts and rewinds keep a valid countdown valid; a rewind never
/// moves the counted time forward.
pub proof fn lemma_valid_preserved(s: CountdownState, delta: nat, secs: nat)
    requires
        s.valid(),
    ensures
        s.after(delta).valid(),
        s.started().valid(),
        s.rewound(secs).valid(),
        s.rewound(secs).elapsed <= s.elapsed,
{
}

/// A rewind takes exactly `secs` seconds off the counted time wherever that
/// much has been counted, keeping any fraction of a second, and changes
/// nothing but the counted time.
pub proof fn lemma_rewound_takes_off(s: CountdownState, secs: nat)
    ensures
        s.elapsed >= secs * NANOS_PER_SEC ==> s.rewound(secs).elapsed == s.elapsed - secs
            * NANOS_PER_SEC,
        s.elapsed < secs * NANOS_PER_SEC ==> s.rewound(secs).elapsed == 0,
        s.elapsed_secs() >= secs <==> s.elapsed >= secs * NANOS_PER_SEC,
        s.rewound(secs).duration == s.duration,
        s.rewound(secs).paused == s.paused,
        s.rewound(secs).finished == s.finished,
{
}

} // verus!
