//! The force field sweep: every ordered pair of distinct particles is
//! evaluated once, source by source, and each evaluation is merged into
//! the target's impulse for the tick.
//!
//! The force of a pair and the sum of two impulses are the caller's: the
//! sweep fixes which pairs are evaluated, in which order, and how their
//! results meet in a target's impulse.

use crate::store::{Particle, ParticleStore};
use vstd::prelude::*;

verus! {

/// How the forces that reach one target within a tick are brought together.
#[derive(Clone, Copy, Debug, PartialEq, Eq, Structural)]
pub enum Aggregation {
    /// The target's impulse is the sum over all sources.
    Accumulate,
    /// Each source replaces what the sources before it left.
    Overwrite,
}

impl Default for Aggregation {
    fn default() -> (mode: Aggregation)
        ensures
            mode == Aggregation::Accumulate,
    {
        Aggregation::Accumulate
    }
}

/// How one evaluated pair changes its target's impulse: a declined pair
/// leaves it alone, the first force of a tick becomes the impulse, and a
/// later one is added to it or replaces it.
pub open spec fn merged<V, G: Fn(V, V) -> V>(
    mode: Aggregation,
    combine: G,
    before: Option<V>,
    force: Option<V>,
    after: Option<V>,
) -> bool {
    match (force, before) {
        (None, _) => after == before,
        (Some(f), None) => after == Some(f),
        (Some(f), Some(sum)) => match mode {
            Aggregation::Accumulate => after is Some && call_ensures(combine, (sum, f), after->0),
            Aggregation::Overwrite => after == Some(f),
        },
    }
}

/// The step of the sweep at `source` and `target`: a particle never acts
/// on itself, and any other pair is evaluated and merged.
pub open spec fn pair_applied<
    T,
    V,
    F: Fn(&Particle<T>, &Particle<T>) -> Option<V>,
    G: Fn(V, V) -> V,
>(
    particles: Seq<Particle<T>>,
    mode: Aggregation,
    pair_force: F,
    combine: G,
    source: int,
    target: int,
    before: Option<V>,
    after: Option<V>,
) -> bool {
    if source == target {
        after == before
    } else {
        exists|force: Option<V>|
            #[trigger] call_ensures(pair_force, (&particles[source], &particles[target]), force)
                && merged(mode, combine, before, force, after)
    }
}

/// `rows` records a whole sweep: row 0 holds no impulse, and row `a + 1`
/// holds every target's impulse once source `a` has acted on all targets.
pub open spec fn sweep_recorded<
    T,
    V,
    F: Fn(&Particle<T>, &Particle<T>) -> Option<V>,
    G: Fn(V, V) -> V,
>(
    particles: Seq<Particle<T>>,
    mode: Aggregation,
    pair_force: F,
    combine: G,
    rows: Seq<Seq<Option<V>>>,
) -> bool {
    &&& rows.len() == particles.len() + 1
    &&& forall|a: int| 0 <= a <= particles.len() ==> (#[trigger] rows[a]).len() == particles.len()
    &&& forall|b: int| 0 <= b < particles.len() ==> (#[trigger] rows[0][b]) is None
    &&& forall|a: int, b: int|
        0 <= a < particles.len() && 0 <= b < particles.len() ==> pair_applied(
            particles,
            mode,
            pair_force,
            combine,
            a,
            b,
            #[trigger] rows[a][b],
            rows[a + 1][b],
        )
}

/// Computes the impulse of every particle for one tick; the result is
/// indexed by particle id. Sources are taken in creation order and, for
/// each source, the targets in creation order. `pair_force` gives the force
/// that the first particle exerts on the second, or `None` to leave the
/// pair out (coincident particles); `combine` adds two impulses. A particle
/// that no source acted on has no impulse.
pub fn compute_impulses<
    T,
    V: Copy,
    F: Fn(&Particle<T>, &Particle<T>) -> Option<V>,
    G: Fn(V, V) -> V,
>(
    particles: &ParticleStore<T>,
    mode: Aggregation,
    pair_force: F,
    combine: G,
) -> (impulses: Vec<Option<V>>)
    requires
        forall|a: int, b: int|
            0 <= a < particles@.len() && 0 <= b < particles@.len() && a != b ==> call_requires(
                pair_force,
                (&#[trigger] particles@[a], &#[trigger] particles@[b]),
            ),
        forall|sum: V, force: V| call_requires(combine, (sum, force)),
    ensures
        impulses@.len() == particles@.len(),
        exists|rows: Seq<Seq<Option<V>>>|
            #[trigger] sweep_recorded(particles@, mode, pair_force, combine, rows)
                && rows[particles@.len() as int] == impulses@,
{
    let all = particles.all();
    let count: usize = all.len();
    let mut impulses: Vec<Option<V>> = Vec::new();
    while impulses.len() < count
        invariant
            impulses@.len() <= count,
            forall|b: int| 0 <= b < impulses@.len() ==> (#[trigger] impulses@[b]) is None,
        decreases count - impulses@.len(),
    {
        impulses.push(None);
    }
    let ghost mut rows: Seq<Seq<Option<V>>> = seq![impulses@];
    let mut source: usize = 0;
    while source < count
        invariant
            all@ == particles@,
            count == all@.len(),
            source <= count,
            impulses@.len() == count,
            rows.len() == source + 1,
            rows[source as int] == impulses@,
            forall|a: int| 0 <= a <= source ==> (#[trigger] rows[a]).len() == count,
            forall|b: int| 0 <= b < count ==> (#[trigger] rows[0][b]) is None,
            forall|a: int, b: int|
                0 <= a < source && 0 <= b < count ==> pair_applied(
                    all@,
                    mode,
                    pair_force,
                    combine,
                    a,
                    b,
                    #[trigger] rows[a][b],
                    rows[a + 1][b],
                ),
            forall|a: int, b: int|
                0 <= a < count && 0 <= b < count && a != b ==> call_requires(
                    pair_force,
                    (&#[trigger] all@[a], &#[trigger] all@[b]),
                ),
            forall|sum: V, force: V| call_requires(combine, (sum, force)),
        decreases count - source,
    {
        let ghost before_row = impulses@;
        let mut target: usize = 0;
        while target < count
            invariant
                count == all@.len(),
                source < count,
                target <= count,
                impulses@.len() == count,
                before_row.len() == count,
                forall|b: int| target <= b < count ==> impulses@[b] == before_row[b],
                forall|b: int|
                    0 <= b < target ==> pair_applied(
                        all@,
                        mode,
                        pair_force,
                        combine,
                        source as int,
                        b,
                        #[trigger] before_row[b],
                        impulses@[b],
                    ),
                forall|a: int, b: int|
                    0 <= a < count && 0 <= b < count && a != b ==> call_requires(
                        pair_force,
                        (&#[trigger] all@[a], &#[trigger] all@[b]),
                    ),
                forall|sum: V, force: V| call_requires(combine, (sum, force)),
            decreases count - target,
        {
            if source != target {
                let force = pair_force(&all[source], &all[target]);
                let before = impulses[target];
                let after = merge(mode, &combine, before, force);
                impulses.set(target, after);
                assert(pair_applied(
                    all@,
                    mode,
                    pair_force,
                    combine,
                    source as int,
                    target as int,
                    before_row[target as int],
                    after,
                ));
            }
            target += 1;
        }
        proof {
            rows = rows.push(impulses@);
        }
        source += 1;
    }
    proof {
        assert(sweep_recorded(particles@, mode, pair_force, combine, rows));
    }
    impulses
}

/// The impulse of `target` once the first `sources` particles have acted,
/// for forces given by `force_of` and sums given by `sum_of`: the sources are
/// folded in creation order, the target itself and the declined pairs are
/// passed over.
pub open spec fn impulse_after<T, V>(
    particles: Seq<Particle<T>>,
    mode: Aggregation,
    force_of: spec_fn(Particle<T>, Particle<T>) -> Option<V>,
    sum_of: spec_fn(V, V) -> V,
    sources: nat,
    target: int,
) -> Option<V>
    decreases sources,
{
    if sources == 0 {
        None
    } else {
        let source = sources - 1;
        let before = impulse_after(particles, mode, force_of, sum_of, source as nat, target);
        if source == target {
            before
        } else {
            match (force_of(particles[source], particles[target]), before) {
                (None, _) => before,
                (Some(f), None) => Some(f),
                (Some(f), Some(sum)) => match mode {
                    Aggregation::Accumulate => Some(sum_of(sum, f)),
                    Aggregation::Overwrite => Some(f),
                },
            }
        }
    }
}

/// `pair_force` returns what `force_of` says, for every pair.
pub open spec fn force_follows<T, V, F: Fn(&Particle<T>, &Particle<T>) -> Option<V>>(
    pair_force: F,
    force_of: spec_fn(Particle<T>, Particle<T>) -> Option<V>,
) -> bool {
    forall|source: Particle<T>, target: Particle<T>, force: Option<V>|
        #[trigger] call_ensures(pair_force, (&source, &target), force) ==> force == force_of(
            source,
            target,
        )
}

/// `combine` returns what `sum_of` says, for every two impulses.
pub open spec fn sum_follows<V, G: Fn(V, V) -> V>(combine: G, sum_of: spec_fn(V, V) -> V) -> bool {
    forall|sum: V, force: V, both: V| #[trigger]
        call_ensures(combine, (sum, force), both) ==> both == sum_of(sum, force)
}

/// Where the force of a pair and the sum of two impulses are functions,
/// a sweep is one: every row of its record is the fold of the sources so
/// far, and so are the impulses it ends with.
pub proof fn lemma_sweep_follows_model<
    T,
    V,
    F: Fn(&Particle<T>, &Particle<T>) -> Option<V>,
    G: Fn(V, V) -> V,
>(
    particles: Seq<Particle<T>>,
    mode: Aggregation,
    pair_force: F,
    combine: G,
    rows: Seq<Seq<Option<V>>>,
    force_of: spec_fn(Particle<T>, Particle<T>) -> Option<V>,
    sum_of: spec_fn(V, V) -> V,
    sources: nat,
    target: int,
)
    requires
        sweep_recorded(particles, mode, pair_force, combine, rows),
        force_follows(pair_force, force_of),
        sum_follows(combine, sum_of),
        sources <= particles.len(),
        0 <= target < particles.len(),
    ensures
        rows[sources as int][target] == impulse_after(
            particles,
            mode,
            force_of,
            sum_of,
            sources,
            target,
        ),
    decreases sources,
{
    if sources > 0 {
        let source = sources - 1;
        lemma_sweep_follows_model(
            particles,
            mode,
            pair_force,
            combine,
            rows,
            force_of,
            sum_of,
            source as nat,
            target,
        );
        assert(pair_applied(
            particles,
            mode,
            pair_force,
            combine,
            source,
            target,
            rows[source][target],
            rows[source + 1][target],
        ));
    }
}

/// The source that is evaluated last for `target` among `count` particles:
/// the last particle, or the one before it for the last particle itself.
pub open spec fn last_source(count: int, target: int) -> int {
    if target == count - 1 {
        count - 2
    } else {
        count - 1
    }
}

/// A particle alone in the store is acted on by nothing: it has no impulse.
pub proof fn lemma_lone_particle_has_no_impulse<
    T,
    V,
    F: Fn(&Particle<T>, &Particle<T>) -> Option<V>,
    G: Fn(V, V) -> V,
>(
    particles: Seq<Particle<T>>,
    mode: Aggregation,
    pair_force: F,
    combine: G,
    rows: Seq<Seq<Option<V>>>,
)
    requires
        particles.len() == 1,
        sweep_recorded(particles, mode, pair_force, combine, rows),
    ensures
        rows[1][0] is None,
{
    assert(pair_applied(particles, mode, pair_force, combine, 0, 0, rows[0][0], rows[1][0]));
}

/// With two particles each one's impulse is what the other exerts on it,
/// whichever way forces are brought together: the two forces of the pair
/// both arrive, and nothing else does.
pub proof fn lemma_two_particles_exchange_forces<
    T,
    V,
    F: Fn(&Particle<T>, &Particle<T>) -> Option<V>,
    G: Fn(V, V) -> V,
>(
    particles: Seq<Particle<T>>,
    mode: Aggregation,
    pair_force: F,
    combine: G,
    rows: Seq<Seq<Option<V>>>,
)
    requires
        particles.len() == 2,
        sweep_recorded(particles, mode, pair_force, combine, rows),
    ensures
        call_ensures(pair_force, (&particles[1], &particles[0]), rows[2][0]),
        call_ensures(pair_force, (&particles[0], &particles[1]), rows[2][1]),
{
    assert(pair_applied(particles, mode, pair_force, combine, 0, 0, rows[0][0], rows[1][0]));
    assert(pair_applied(particles, mode, pair_force, combine, 1, 0, rows[1][0], rows[2][0]));
    assert(pair_applied(particles, mode, pair_force, combine, 0, 1, rows[0][1], rows[1][1]));
    assert(pair_applied(particles, mode, pair_force, combine, 1, 1, rows[1][1], rows[2][1]));
}

/// When each source replaces what the sources before it left, a target's
/// impulse is the force of the source evaluated last for it, provided that
/// pair is not declined: with three or more particles the force of every
/// other source on that target is lost within the same tick.
pub proof fn lemma_overwrite_keeps_last_source<
    T,
    V,
    F: Fn(&Particle<T>, &Particle<T>) -> Option<V>,
    G: Fn(V, V) -> V,
>(
    particles: Seq<Particle<T>>,
    pair_force: F,
    combine: G,
    rows: Seq<Seq<Option<V>>>,
    target: int,
)
    requires
        particles.len() >= 2,
        0 <= target < particles.len(),
        sweep_recorded(particles, Aggregation::Overwrite, pair_force, combine, rows),
        forall|force: Option<V>|
            call_ensures(
                pair_force,
                (&particles[last_source(particles.len() as int, target)], &particles[target]),
                force,
            ) ==> force is Some,
    ensures
        rows[particles.len() as int][target] is Some,
        call_ensures(
            pair_force,
            (&particles[last_source(particles.len() as int, target)], &particles[target]),
            rows[particles.len() as int][target],
        ),
{
    let count = particles.len() as int;
    let last = last_source(count, target);
    assert(pair_applied(
        particles,
        Aggregation::Overwrite,
        pair_force,
        combine,
        last,
        target,
        rows[last][target],
        rows[last + 1][target],
    ));
    if target == count - 1 {
        assert(pair_applied(
            particles,
            Aggregation::Overwrite,
            pair_force,
            combine,
            target,
            target,
            rows[target][target],
            rows[target + 1][target],
        ));
    }
}

/// When forces are summed, a target's impulse after each source is the
/// impulse before it with that source's force added: no force that was not
/// declined is lost.
pub proof fn lemma_accumulate_adds_every_force<
    T,
    V,
    F: Fn(&Particle<T>, &Particle<T>) -> Option<V>,
    G: Fn(V, V) -> V,
>(
    particles: Seq<Particle<T>>,
    pair_force: F,
    combine: G,
    rows: Seq<Seq<Option<V>>>,
    source: int,
    target: int,
)
    requires
        0 <= source < particles.len(),
        0 <= target < particles.len(),
        source != target,
        sweep_recorded(particles, Aggregation::Accumulate, pair_force, combine, rows),
        rows[source][target] is Some,
        forall|force: Option<V>|
            call_ensures(pair_force, (&particles[source], &particles[target]), force)
                ==> force is Some,
    ensures
        rows[source + 1][target] is Some,
        exists|force: V|
            #[trigger] call_ensures(
                pair_force,
                (&particles[source], &particles[target]),
                Some(force),
            ) && call_ensures(
                combine,
                (rows[source][target]->0, force),
                rows[source + 1][target]->0,
            ),
{
    assert(pair_applied(
        particles,
        Aggregation::Accumulate,
        pair_force,
        combine,
        source,
        target,
        rows[source][target],
        rows[source + 1][target],
    ));
    let force = choose|force: Option<V>|
        #[trigger] call_ensures(pair_force, (&particles[source], &particles[target]), force)
            && merged(
            Aggregation::Accumulate,
            combine,
            rows[source][target],
            force,
            rows[source + 1][target],
        );
    assert(call_ensures(pair_force, (&particles[source], &particles[target]), Some(force->0)));
}

/// Merges the force of one evaluated pair into its target's impulse.
fn merge<V: Copy, G: Fn(V, V) -> V>(
    mode: Aggregation,
    combine: &G,
    before: Option<V>,
    force: Option<V>,
) -> (after: Option<V>)
    requires
        forall|sum: V, f: V| call_requires(*combine, (sum, f)),
    ensures
        merged(mode, *combine, before, force, after),
{
    match (force, before) {
        (None, _) => before,
        (Some(f), None) => Some(f),
        (Some(f), Some(sum)) => match mode {
            Aggregation::Accumulate => Some(combine(sum, f)),
            Aggregation::Overwrite => Some(f),
        },
    }
}

} // verus!
