//! What the library takes on trust of `bevy::time::Timer`: the type, names
//! for what its getters return, and the contracts of the three methods
//! that the clock calls. Nothing in this file is proved.

use bevy::time::Timer;
use std::time::Duration;
use vstd::prelude::*;

verus! {

/// `bevy::time::Timer`, carried through as an opaque value.
#[verifier::external_type_specification]
#[verifier::external_body]
pub struct ExTimer(Timer);

/// What `Timer::elapsed` returns, in nanoseconds.
pub uninterp spec fn timer_elapsed(timer: Timer) -> nat;

/// What `Timer::duration` returns, in nanoseconds.
pub uninterp spec fn timer_period(timer: Timer) -> nat;

/// What `Timer::finished` returns.
pub uninterp spec fn timer_finished(timer: Timer) -> bool;

/// What `Timer::repeating` returns.
pub uninterp spec fn timer_repeating(timer: Timer) -> bool;

/// What `Timer::paused` returns.
pub uninterp spec fn timer_paused(timer: Timer) -> bool;

/// The whole periods that fit into the elapsed time once `delta` is added.
pub open spec fn periods_reached(elapsed: nat, delta: nat, period: nat) -> nat {
    (elapsed + delta) / period
}

/// What is left of the elapsed time and `delta` beyond the whole periods.
pub open spec fn carried_over(elapsed: nat, delta: nat, period: nat) -> nat {
    (elapsed + delta) % period
}

/// `Timer::new` with the repeating flag set: the timer starts unpaused,
/// unfinished and with nothing elapsed, and keeps the given duration.
#[verifier::external_body]
pub(crate) fn timer_new(period_nanos: u64) -> (timer: Timer)
    ensures
        timer_repeating(timer),
        !timer_paused(timer),
        !timer_finished(timer),
        timer_elapsed(timer) == 0,
        timer_period(timer) == period_nanos,
{
    Timer::new(Duration::from_nanos(period_nanos), true)
}

/// `Timer::tick` on a repeating, unpaused timer: the delta is added to the
/// elapsed time, the timer is finished exactly when the sum reaches the
/// duration, and the whole periods are taken off the sum again. Left out
/// are a zero duration (the division panics), a quotient beyond `u32` (the
/// count of periods is truncated) and an elapsed time beyond `u64`
/// nanoseconds (so that the sum stays inside `Duration`).
#[verifier::external_body]
pub(crate) fn timer_tick(timer: &mut Timer, delta_nanos: u64)
    requires
        timer_repeating(*old(timer)),
        !timer_paused(*old(timer)),
        timer_period(*old(timer)) > 0,
        timer_elapsed(*old(timer)) <= u64::MAX,
        periods_reached(
            timer_elapsed(*old(timer)),
            delta_nanos as nat,
            timer_period(*old(timer)),
        ) <= u32::MAX,
    ensures
        timer_repeating(*final(timer)),
        !timer_paused(*final(timer)),
        timer_period(*final(timer)) == timer_period(*old(timer)),
        timer_finished(*final(timer)) == (timer_elapsed(*old(timer)) + delta_nanos
            >= timer_period(*old(timer))),
        timer_elapsed(*final(timer)) == carried_over(
            timer_elapsed(*old(timer)),
            delta_nanos as nat,
            timer_period(*old(timer)),
        ),
{
    timer.tick(Duration::from_nanos(delta_nanos));
}

/// `Timer::finished`: the flag that the latest tick left.
#[verifier::external_body]
pub(crate) fn timer_is_finished(timer: &Timer) -> (finished: bool)
    ensures
        finished == timer_finished(*timer),
{
    timer.finished()
}

} // verus!
