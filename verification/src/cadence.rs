//! A repeating clock: it is advanced tick by tick and says on each tick
//! whether its period ran out.

use crate::timer::{
    carried_over, timer_elapsed, timer_is_finished, timer_new, timer_paused, timer_period,
    timer_repeating, timer_tick,
};
use bevy::time::Timer;
use vstd::arithmetic::div_mod::{
    lemma_basic_div, lemma_div_is_ordered, lemma_div_multiples_vanish_fancy,
    lemma_fundamental_div_mod, lemma_mod_bound, lemma_mod_multiples_vanish,
};
use vstd::prelude::*;

verus! {

/// A repeating clock with a period in nanoseconds.
pub struct Cadence {
    timer: Timer,
    period_nanos: u64,
}

impl Cadence {
    /// The clock is running, its period is positive and less than one
    /// period has elapsed.
    pub closed spec fn wf(&self) -> bool {
        &&& timer_repeating(self.timer)
        &&& !timer_paused(self.timer)
        &&& self.period_nanos > 0
        &&& timer_period(self.timer) == self.period_nanos
        &&& timer_elapsed(self.timer) < self.period_nanos
    }

    /// The period in nanoseconds.
    pub closed spec fn period(&self) -> nat {
        self.period_nanos as nat
    }

    /// Nanoseconds elapsed since the period last ran out.
    pub closed spec fn elapsed(&self) -> nat {
        timer_elapsed(self.timer)
    }

    /// A clock with the given period and nothing elapsed; a zero period is
    /// refused.
    pub fn new(period_nanos: u64) -> (made: Option<Cadence>)
        ensures
            made is Some <==> period_nanos > 0,
            made is Some ==> {
                &&& made->0.wf()
                &&& made->0.period() == period_nanos
                &&& made->0.elapsed() == 0
            },
    {
        if period_nanos == 0 {
            None
        } else {
            Some(Cadence { timer: timer_new(period_nanos), period_nanos })
        }
    }

    /// The period in nanoseconds.
    pub fn period_nanos(&self) -> (period: u64)
        ensures
            period == self.period(),
    {
        self.period_nanos
    }

    /// Advances the clock by `delta_nanos` and says whether the period ran
    /// out on this tick. Whole periods are dropped from the elapsed time,
    /// the remainder is carried into the next tick.
    pub fn advance(&mut self, delta_nanos: u64) -> (due: bool)
        requires
            old(self).wf(),
        ensures
            final(self).wf(),
            final(self).period() == old(self).period(),
            due == (old(self).elapsed() + delta_nanos >= old(self).period()),
            final(self).elapsed() == carried_over(
                old(self).elapsed(),
                delta_nanos as nat,
                old(self).period(),
            ),
    {
        let period: u64 = self.period_nanos;
        // The timer counts the periods of one tick in a `u32`: a long delta
        // is cut down to less than two periods, which leaves the same
        // remainder and the same answer.
        let step: u64 = if delta_nanos >= period {
            let rest: u64 = delta_nanos % period;
            proof {
                lemma_fundamental_div_mod(delta_nanos as int, period as int);
                lemma_mod_bound(delta_nanos as int, period as int);
                assert(delta_nanos / period >= 1) by {
                    lemma_div_is_ordered(period as int, delta_nanos as int, period as int);
                    lemma_div_multiples_vanish_fancy(1, 0, period as int);
                }
                assert(period * (delta_nanos / period) >= period) by (nonlinear_arith)
                    requires
                        delta_nanos / period >= 1,
                        period > 0,
                ;
            }
            period + rest
        } else {
            delta_nanos
        };
        proof {
            let e = timer_elapsed(self.timer) as int;
            let p = period as int;
            lemma_cut_tick(e, delta_nanos as int, p, step as int);
        }
        timer_tick(&mut self.timer, step);
        timer_is_finished(&self.timer)
    }
}

/// A tick cut down to less than two periods reaches the period on the same
/// inputs, leaves the same remainder and spans at most two periods.
proof fn lemma_cut_tick(elapsed: int, delta: int, period: int, step: int)
    requires
        0 <= elapsed < period,
        0 <= delta,
        step == if delta >= period {
            period + delta % period
        } else {
            delta
        },
    ensures
        (elapsed + step >= period) == (elapsed + delta >= period),
        (elapsed + step) % period == (elapsed + delta) % period,
        0 <= (elapsed + step) / period <= 2,
{
    lemma_mod_bound(delta, period);
    if delta >= period {
        lemma_fundamental_div_mod(delta, period);
        let q = delta / period;
        let r = delta % period;
        lemma_mod_multiples_vanish(q, elapsed + r, period);
        lemma_mod_multiples_vanish(1, elapsed + r, period);
        assert(period * q + (elapsed + r) == elapsed + delta);
        assert(period * 1 + (elapsed + r) == elapsed + step);
    }
    lemma_div_is_ordered(0, elapsed + step, period);
    lemma_basic_div(0, period);
    lemma_div_is_ordered(elapsed + step, 3 * period - 1, period);
    lemma_div_multiples_vanish_fancy(2, period - 1, period);
    assert(period * 2 + (period - 1) == 3 * period - 1);
}

} // verus!
