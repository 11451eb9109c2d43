use particle_sandbox::camera::{CameraInput, CameraTracker, Point};
use particle_sandbox::diagnostics::DiagnosticsAggregator;
use particle_sandbox::engine::{compute_impulses, Aggregation};
use particle_sandbox::spawn::{SpawnController, SpawnInput};
use particle_sandbox::store::{Particle, ParticleStore};

const MILLI: u64 = 1_000_000;
const FRAME: u64 = 10 * MILLI;

type Position = (f32, f32);

/// A unit pull along the line from `target` to `source`.
fn unit_pull(source: &Particle<Position>, target: &Particle<Position>) -> Option<Position> {
    let dx = source.body.0 - target.body.0;
    let dy = source.body.1 - target.body.1;
    let distance = libm::sqrtf(dx * dx + dy * dy);
    if distance < 1e-6 {
        None
    } else {
        Some((dx / distance, dy / distance))
    }
}

fn sum(a: Position, b: Position) -> Position {
    (a.0 + b.0, a.1 + b.1)
}

#[test]
fn full_tick_without_particles_makes_no_impulses() {
    let mut spawner = SpawnController::new(30 * MILLI).unwrap();
    let mut store: ParticleStore<Position> = ParticleStore::new();
    let mut camera = CameraTracker::new(Point { x: 0, y: 0 }, 400, 300 * MILLI).unwrap();
    let mut diagnostics = DiagnosticsAggregator::new(50 * MILLI).unwrap();
    let idle = SpawnInput { hold: false, click: false };
    let still = CameraInput { up: false, down: false, left: false, right: false };
    for _ in 0..10 {
        let spawned = spawner.maybe_spawn(FRAME, idle, &mut store, || (0., 0.));
        assert_eq!((spawned.continuous, spawned.click), (None, None));
        let impulses = compute_impulses(&store, Aggregation::default(), unit_pull, sum);
        assert!(impulses.is_empty());
        assert_eq!(camera.update(still, FRAME), Point { x: 0, y: 0 });
        if let Some(reading) = diagnostics.sample(FRAME, None::<f64>, store.len()) {
            assert_eq!(reading.particle_count, 0);
        }
    }
    assert!(store.is_empty());
}

#[test]
fn ticks_with_held_input_fill_the_store_and_the_impulses() {
    let mut spawner = SpawnController::new(30 * MILLI).unwrap();
    let mut store: ParticleStore<Position> = ParticleStore::new();
    let mut diagnostics = DiagnosticsAggregator::new(50 * MILLI).unwrap();
    let hold = SpawnInput { hold: true, click: false };
    let mut counts = Vec::new();
    for tick in 0..9u32 {
        let at = (tick as f32, 0.);
        spawner.maybe_spawn(FRAME, hold, &mut store, || at);
        let impulses = compute_impulses(&store, Aggregation::Accumulate, unit_pull, sum);
        assert_eq!(impulses.len(), store.len());
        if let Some(reading) = diagnostics.sample(FRAME, Some(100.0f64), store.len()) {
            counts.push(reading.particle_count);
        }
    }
    // a particle on every third tick, at x = 2, 5 and 8
    let seen: Vec<(u32, Position)> = store.all().iter().map(|p| (p.id, p.body)).collect();
    assert_eq!(seen, vec![(0, (2., 0.)), (1, (5., 0.)), (2, (8., 0.))]);
    // a sample on the fifth tick, with one particle
    assert_eq!(counts, vec![1]);
    let impulses = compute_impulses(&store, Aggregation::Accumulate, unit_pull, sum);
    assert_eq!(impulses, vec![Some((2., 0.)), Some((0., 0.)), Some((-2., 0.))]);
    let last = compute_impulses(&store, Aggregation::Overwrite, unit_pull, sum);
    assert_eq!(last, vec![Some((1., 0.)), Some((1., 0.)), Some((-1., 0.))]);
}
