//! The spawn controller: it decides on every tick which of the two spawn
//! triggers fire, and creates the particles they ask for.

use crate::cadence::Cadence;
use crate::store::ParticleStore;
use crate::timer::carried_over;
use vstd::arithmetic::div_mod::{
    lemma_basic_div, lemma_div_multiples_vanish_fancy, lemma_div_plus_one,
    lemma_mod_multiples_vanish, lemma_small_mod,
};
use vstd::prelude::*;

verus! {

/// What the input source reports for one tick.
#[derive(Clone, Copy, Debug)]
pub struct SpawnInput {
    /// The continuous-spawn input is held.
    pub hold: bool,
    /// The single-spawn input went from released to pressed on this tick.
    pub click: bool,
}

/// Which triggers fire on one tick. They are independent: both may fire on
/// the same tick, each at most once.
#[derive(Clone, Copy, Debug)]
pub struct SpawnDecision {
    /// The throttle period ran out while the continuous input was held.
    pub continuous: bool,
    /// The single-spawn input was just pressed.
    pub click: bool,
}

/// The ids of the particles that one tick created.
#[derive(Clone, Copy, Debug)]
pub struct Spawned {
    /// The particle of the continuous trigger.
    pub continuous: Option<u32>,
    /// The particle of the single-spawn trigger.
    pub click: Option<u32>,
}

impl SpawnDecision {
    /// How many particles the decision asks for.
    pub open spec fn spec_count(self) -> nat {
        (if self.continuous {
            1nat
        } else {
            0nat
        }) + (if self.click {
            1nat
        } else {
            0nat
        })
    }

    /// How many particles the decision asks for.
    pub fn count(&self) -> (count: u8)
        ensures
            count == self.spec_count(),
    {
        let continuous: u8 = if self.continuous {
            1
        } else {
            0
        };
        let click: u8 = if self.click {
            1
        } else {
            0
        };
        continuous + click
    }
}

/// The decision for a tick of `delta` nanoseconds on a throttle with
/// `elapsed` of its `period` behind it.
pub open spec fn decision_for(elapsed: nat, period: nat, delta: nat, input: SpawnInput)
    -> SpawnDecision {
    SpawnDecision { continuous: input.hold && elapsed + delta >= period, click: input.click }
}

/// Rate-limits the particles of the held input and lets every click
/// through.
pub struct SpawnController {
    throttle: Cadence,
}

impl SpawnController {
    /// The throttle is in order.
    pub closed spec fn wf(&self) -> bool {
        self.throttle.wf()
    }

    /// The throttle period in nanoseconds.
    pub closed spec fn period(&self) -> nat {
        self.throttle.period()
    }

    /// Nanoseconds since the throttle period last ran out.
    pub closed spec fn elapsed(&self) -> nat {
        self.throttle.elapsed()
    }

    /// A controller with the given throttle period; a zero period is
    /// refused.
    pub fn new(period_nanos: u64) -> (made: Option<SpawnController>)
        ensures
            made is Some <==> period_nanos > 0,
            made is Some ==> {
                &&& made->0.wf()
                &&& made->0.period() == period_nanos
                &&& made->0.elapsed() == 0
            },
    {
        match Cadence::new(period_nanos) {
            Some(throttle) => Some(SpawnController { throttle }),
            None => None,
        }
    }

    /// The throttle period in nanoseconds.
    pub fn period_nanos(&self) -> (period: u64)
        ensures
            period == self.period(),
    {
        self.throttle.period_nanos()
    }

    /// Advances the throttle by one tick and says which triggers fire. The
    /// throttle runs whether or not the input is held; the continuous
    /// trigger fires on the ticks on which the period runs out while the
    /// input is held, the click trigger whenever the input was just pressed.
    pub fn decide(&mut self, delta_nanos: u64, input: SpawnInput) -> (decision: SpawnDecision)
        requires
            old(self).wf(),
        ensures
            final(self).wf(),
            final(self).period() == old(self).period(),
            final(self).elapsed() == carried_over(
                old(self).elapsed(),
                delta_nanos as nat,
                old(self).period(),
            ),
            decision == decision_for(
                old(self).elapsed(),
                old(self).period(),
                delta_nanos as nat,
                input,
            ),
    {
        let due = self.throttle.advance(delta_nanos);
        SpawnDecision { continuous: due && input.hold, click: input.click }
    }

    /// One tick of the controller: decides as `decide` does and creates a
    /// particle for each trigger that fires, the continuous one first. The
    /// body of each new particle comes from `make_body`. A trigger that
    /// fires on a full store creates nothing.
    pub fn maybe_spawn<T, M: Fn() -> T>(
        &mut self,
        delta_nanos: u64,
        input: SpawnInput,
        store: &mut ParticleStore<T>,
        make_body: M,
    ) -> (spawned: Spawned)
        requires
            old(self).wf(),
            old(store).wf(),
            call_requires(make_body, ()),
        ensures
            final(self).wf(),
            final(store).wf(),
            final(self).period() == old(self).period(),
            final(self).elapsed() == carried_over(
                old(self).elapsed(),
                delta_nanos as nat,
                old(self).period(),
            ),
            spawned == spawned_for(
                old(store)@.len(),
                decision_for(old(self).elapsed(), old(self).period(), delta_nanos as nat, input),
            ),
            final(store)@.len() == old(store)@.len() + created_count(spawned),
            old(store)@.is_prefix_of(final(store)@),
            forall|i: int|
                old(store)@.len() <= i < final(store)@.len() ==> call_ensures(
                    make_body,
                    (),
                    (#[trigger] final(store)@[i]).body,
                ),
    {
        let decision = self.decide(delta_nanos, input);
        let continuous = if decision.continuous {
            create_from(store, &make_body)
        } else {
            None
        };
        let click = if decision.click {
            create_from(store, &make_body)
        } else {
            None
        };
        Spawned { continuous, click }
    }
}

/// The ids that a decision yields on a store of `count` particles: each
/// trigger that fires takes the next id while one is left.
pub open spec fn spawned_for(count: nat, decision: SpawnDecision) -> Spawned {
    let continuous = if decision.continuous && count < u32::MAX {
        Some(count as u32)
    } else {
        None
    };
    let next = if continuous is Some {
        count + 1
    } else {
        count
    };
    let click = if decision.click && next < u32::MAX {
        Some(next as u32)
    } else {
        None
    };
    Spawned { continuous, click }
}

/// How many particles a tick created.
pub open spec fn created_count(spawned: Spawned) -> nat {
    (if spawned.continuous is Some {
        1nat
    } else {
        0nat
    }) + (if spawned.click is Some {
        1nat
    } else {
        0nat
    })
}

/// Creates one particle with a body from `make_body`, unless the store is
/// full.
fn create_from<T, M: Fn() -> T>(store: &mut ParticleStore<T>, make_body: &M) -> (id: Option<u32>)
    requires
        old(store).wf(),
        call_requires(*make_body, ()),
    ensures
        final(store).wf(),
        old(store)@.len() < u32::MAX ==> {
            &&& id == Some(old(store)@.len() as u32)
            &&& final(store)@.len() == old(store)@.len() + 1
            &&& final(store)@.drop_last() == old(store)@
            &&& call_ensures(*make_body, (), final(store)@.last().body)
        },
        old(store)@.len() >= u32::MAX ==> id is None && final(store)@ == old(store)@,
{
    if store.len() < u32::MAX as usize {
        let body = make_body();
        match store.create(body) {
            Ok(id) => {
                assert(final(store)@.drop_last() =~= old(store)@);
                Some(id)
            },
            Err(_) => None,
        }
    } else {
        None
    }
}

/// A click creates exactly one particle on its own, whatever the state of
/// the throttle and however long the tick.
pub proof fn lemma_click_spawns_exactly_one(elapsed: nat, period: nat, delta: nat, count: nat)
    requires
        count < u32::MAX,
    ensures
        decision_for(elapsed, period, delta, SpawnInput { hold: false, click: true }).spec_count()
            == 1,
        created_count(
            spawned_for(
                count,
                decision_for(elapsed, period, delta, SpawnInput { hold: false, click: true }),
            ),
        ) == 1,
{
}

/// The sum of the tick lengths.
pub open spec fn total_nanos(deltas: Seq<u64>) -> nat
    decreases deltas.len(),
{
    if deltas.len() == 0 {
        0
    } else {
        deltas[0] as nat + total_nanos(deltas.drop_first())
    }
}

/// How many particles the continuous trigger creates over a run of ticks
/// with the input held throughout, from a throttle with `elapsed` of its
/// `period` behind it.
pub open spec fn held_spawns(elapsed: nat, period: nat, deltas: Seq<u64>) -> nat
    decreases deltas.len(),
{
    if deltas.len() == 0 {
        0
    } else {
        let input = SpawnInput { hold: true, click: false };
        let first = decision_for(elapsed, period, deltas[0] as nat, input);
        first.spec_count() + held_spawns(
            carried_over(elapsed, deltas[0] as nat, period),
            period,
            deltas.drop_first(),
        )
    }
}

/// While the input is held and no tick is longer than the period, the
/// continuous trigger fires once for every period that runs out: the
/// particles created are the whole periods in the time elapsed before the
/// run plus the length of the run.
pub proof fn lemma_held_spawns_once_per_period(elapsed: nat, period: nat, deltas: Seq<u64>)
    requires
        period > 0,
        elapsed < period,
        forall|i: int| 0 <= i < deltas.len() ==> deltas[i] <= period,
    ensures
        held_spawns(elapsed, period, deltas) == (elapsed + total_nanos(deltas)) / period,
    decreases deltas.len(),
{
    if deltas.len() == 0 {
        lemma_basic_div(elapsed as int, period as int);
    } else {
        let delta = deltas[0] as nat;
        let rest = deltas.drop_first();
        let carried = carried_over(elapsed, delta, period);
        assert forall|i: int| 0 <= i < rest.len() implies rest[i] <= period by {
            assert(rest[i] == deltas[i + 1]);
        }
        if elapsed + delta >= period {
            lemma_mod_multiples_vanish(1, elapsed + delta - period, period as int);
            lemma_small_mod((elapsed + delta - period) as nat, period);
            assert(carried == elapsed + delta - period);
            lemma_held_spawns_once_per_period(carried, period, rest);
            lemma_div_plus_one((carried + total_nanos(rest)) as int, period as int);
        } else {
            lemma_small_mod(elapsed + delta, period);
            lemma_held_spawns_once_per_period(carried, period, rest);
        }
    }
}

/// Holding the input for exactly `periods` throttle periods, in ticks no
/// longer than the period, creates exactly `periods` particles.
pub proof fn lemma_held_for_whole_periods(
    elapsed: nat,
    period: nat,
    deltas: Seq<u64>,
    periods: nat,
)
    requires
        period > 0,
        elapsed < period,
        forall|i: int| 0 <= i < deltas.len() ==> deltas[i] <= period,
        total_nanos(deltas) == periods * period,
    ensures
        held_spawns(elapsed, period, deltas) == periods,
{
    lemma_held_spawns_once_per_period(elapsed, period, deltas);
    lemma_div_multiples_vanish_fancy(periods as int, elapsed as int, period as int);
    assert(period * periods + elapsed == elapsed + total_nanos(deltas)) by (nonlinear_arith)
        requires
            total_nanos(deltas) == periods * period,
    ;
}

} // verus!
