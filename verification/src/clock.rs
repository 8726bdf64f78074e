//! The engine's timer and what the rules rely on it to do.
//!
//! A timer is kept as the engine's own `Timer`. Its contents are opaque to
//! the proofs; they are named by [`clock_state`], and every call into the
//! engine is made through one of the functions below, whose contracts are
//! taken on trust from the engine's source. All spans are whole nanoseconds.

use vstd::prelude::*;
use bevy::prelude::Timer;

verus! {

/// Nanoseconds in a second.
pub const NANOS_PER_SEC: u64 = 1_000_000_000;

/// The engine's timer type, carried through verified code as an opaque value.
#[verifier::external_type_specification]
#[verifier::external_body]
pub struct ExTimer(Timer);

/// What a timer holds that the rules depend on.
pub struct ClockState {
    /// The configured span, in nanoseconds.
    pub duration: nat,
    /// The time counted so far, in nanoseconds.
    pub elapsed: nat,
    /// Whether the timer starts over when it reaches its span.
    pub repeating: bool,
    /// Whether ticks are ignored.
    pub paused: bool,
    /// Whether the last effective tick reached the span.
    pub finished: bool,
}

/// The contents of an engine timer: its `duration`, the `elapsed` time and
/// `paused` flag of its stopwatch, and its `repeating` and `finished` flags.
pub uninterp spec fn clock_state(t: Timer) -> ClockState;

/// The state that a tick of `delta` nanoseconds leaves behind.
///
/// A paused timer and a finished one-shot timer do not change. Otherwise the
/// time is added; a one-shot timer stops at its span, a repeating timer keeps
/// what is left over after whole spans, and either is then finished.
pub open spec fn ticked(s: ClockState, delta: nat) -> ClockState {
    let total: nat = s.elapsed + delta;
    if s.paused || (!s.repeating && s.finished) {
        s
    } else if total < s.duration {
        ClockState { elapsed: total, finished: false, ..s }
    } else if s.repeating {
        ClockState { elapsed: (total % s.duration) as nat, finished: true, ..s }
    } else {
        ClockState { elapsed: s.duration, finished: true, ..s }
    }
}

/// Calls `Timer::new` with a span of `duration_ns` nanoseconds.
///
/// Trusted: the new timer has that span and that `repeating` flag, no time
/// counted, and is neither paused nor finished.
#[verifier::external_body]
pub(crate) fn timer_new(duration_ns: u64, repeating: bool) -> (t: Timer)
    ensures
        clock_state(t) == (ClockState {
            duration: duration_ns as nat,
            elapsed: 0,
            repeating,
            paused: false,
            finished: false,
        }),
{
    Timer::new(std::time::Duration::from_nanos(duration_ns), repeating)
}

/// Calls `Timer::tick` with a step of `delta_ns` nanoseconds.
///
/// Trusted: the timer changes as [`ticked`] says. The engine counts the
/// spans a repeating timer completed within one tick in 32 bits and divides
/// by the span, so a repeating timer must have a positive span and complete
/// no more spans than that counter holds; the counted time must stay within
/// what the engine's time type can add.
#[verifier::external_body]
pub(crate) fn timer_tick(t: &mut Timer, delta_ns: u64)
    requires
        clock_state(*old(t)).elapsed <= u64::MAX,
        clock_state(*old(t)).repeating ==> clock_state(*old(t)).duration > 0 && (clock_state(
            *old(t),
        ).elapsed + delta_ns) / (clock_state(*old(t)).duration as int) <= u32::MAX,
    ensures
        clock_state(*final(t)) == ticked(clock_state(*old(t)), delta_ns as nat),
{
    t.tick(std::time::Duration::from_nanos(delta_ns));
}

/// Calls `Timer::finished`.
///
/// Trusted: it returns the timer's `finished` flag.
#[verifier::external_body]
pub(crate) fn timer_finished(t: &Timer) -> (r: bool)
    ensures
        r == clock_state(*t).finished,
{
    t.finished()
}

/// Calls `Timer::paused`.
///
/// Trusted: it returns the timer's `paused` flag.
#[verifier::external_body]
pub(crate) fn timer_paused(t: &Timer) -> (r: bool)
    ensures
        r == clock_state(*t).paused,
{
    t.paused()
}

/// Calls `Timer::pause`.
///
/// Trusted: it sets the `paused` flag and changes nothing else.
#[verifier::external_body]
pub(crate) fn timer_pause(t: &mut Timer)
    ensures
        clock_state(*final(t)) == (ClockState { paused: true, ..clock_state(*old(t)) }),
{
    t.pause();
}

/// Calls `Timer::unpause`.
///
/// Trusted: it clears the `paused` flag and changes nothing else.
#[verifier::external_body]
pub(crate) fn timer_unpause(t: &mut Timer)
    ensures
        clock_state(*final(t)) == (ClockState { paused: false, ..clock_state(*old(t)) }),
{
    t.unpause();
}

/// Calls `Timer::elapsed` and gives the result in nanoseconds.
///
/// Trusted: it returns the counted time, which must fit in 64 bits.
#[verifier::external_body]
pub(crate) fn timer_elapsed_ns(t: &Timer) -> (ns: u64)
    requires
        clock_state(*t).elapsed <= u64::MAX,
    ensures
        ns == clock_state(*t).elapsed,
{
    t.elapsed().as_nanos() as u64
}

/// Calls `Timer::set_elapsed` with `ns` nanoseconds.
///
/// Trusted: the counted time becomes `ns` and nothing else changes; in
/// particular the `finished` flag keeps its value.
#[verifier::external_body]
pub(crate) fn timer_set_elapsed_ns(t: &mut Timer, ns: u64)
    ensures
        clock_state(*final(t)) == (ClockState { elapsed: ns as nat, ..clock_state(*old(t)) }),
{
    t.set_elapsed(std::time::Duration::from_nanos(ns));
}

} // verus!
