use particle_sandbox::spawn::{SpawnController, SpawnDecision, SpawnInput};
use particle_sandbox::store::ParticleStore;
use std::cell::Cell;

const MILLI: u64 = 1_000_000;
const PERIOD: u64 = 30 * MILLI;

const IDLE: SpawnInput = SpawnInput { hold: false, click: false };
const HOLD: SpawnInput = SpawnInput { hold: true, click: false };
const CLICK: SpawnInput = SpawnInput { hold: false, click: true };
const BOTH: SpawnInput = SpawnInput { hold: true, click: true };

fn held_spawns(controller: &mut SpawnController, ticks: usize, delta: u64) -> usize {
    let mut spawns = 0;
    for _ in 0..ticks {
        if controller.decide(delta, HOLD).continuous {
            spawns += 1;
        }
    }
    spawns
}

#[test]
fn spawn_controller_refuses_zero_period() {
    assert!(SpawnController::new(0).is_none());
}

#[test]
fn spawn_controller_keeps_its_period() {
    let controller = SpawnController::new(PERIOD).unwrap();
    assert_eq!(controller.period_nanos(), PERIOD);
}

#[test]
fn spawn_decision_counts_its_triggers() {
    assert_eq!(SpawnDecision { continuous: false, click: false }.count(), 0);
    assert_eq!(SpawnDecision { continuous: true, click: false }.count(), 1);
    assert_eq!(SpawnDecision { continuous: false, click: true }.count(), 1);
    assert_eq!(SpawnDecision { continuous: true, click: true }.count(), 2);
}

#[test]
fn spawn_idle_tick_fires_nothing() {
    let mut controller = SpawnController::new(PERIOD).unwrap();
    let decision = controller.decide(10 * PERIOD, IDLE);
    assert!(!decision.continuous);
    assert!(!decision.click);
}

#[test]
fn spawn_hold_waits_for_the_period() {
    let mut controller = SpawnController::new(PERIOD).unwrap();
    assert!(!controller.decide(10 * MILLI, HOLD).continuous);
    assert!(!controller.decide(10 * MILLI, HOLD).continuous);
    assert!(controller.decide(10 * MILLI, HOLD).continuous);
    assert!(!controller.decide(10 * MILLI, HOLD).continuous);
}

#[test]
fn spawn_holding_for_n_periods_spawns_n() {
    // 10 periods in ticks of a third of a period
    let mut controller = SpawnController::new(PERIOD).unwrap();
    assert_eq!(held_spawns(&mut controller, 30, 10 * MILLI), 10);
    // 10 periods in ticks of half a period
    let mut controller = SpawnController::new(PERIOD).unwrap();
    assert_eq!(held_spawns(&mut controller, 20, 15 * MILLI), 10);
    // 10 periods in ticks of a whole period
    let mut controller = SpawnController::new(PERIOD).unwrap();
    assert_eq!(held_spawns(&mut controller, 10, PERIOD), 10);
    // 12 periods in ticks of 24 ms, which do not divide the period
    let mut controller = SpawnController::new(PERIOD).unwrap();
    assert_eq!(held_spawns(&mut controller, 15, 24 * MILLI), 12);
}

#[test]
fn spawn_holding_counts_whole_periods_with_time_already_elapsed() {
    let mut controller = SpawnController::new(PERIOD).unwrap();
    // 20 ms are on the throttle before the input is held
    assert!(!controller.decide(20 * MILLI, IDLE).continuous);
    // 19 ticks of 16 ms are 304 ms: (20 + 304) / 30 = 10
    assert_eq!(held_spawns(&mut controller, 19, 16 * MILLI), 10);
    // without the head start the same run gives 304 / 30 = 10 as well,
    // and one tick less gives (20 + 288) / 30 = 10 against 288 / 30 = 9
    let mut ahead = SpawnController::new(PERIOD).unwrap();
    ahead.decide(20 * MILLI, IDLE);
    assert_eq!(held_spawns(&mut ahead, 18, 16 * MILLI), 10);
    let mut fresh = SpawnController::new(PERIOD).unwrap();
    assert_eq!(held_spawns(&mut fresh, 18, 16 * MILLI), 9);
}

#[test]
fn spawn_long_tick_spawns_once() {
    let mut controller = SpawnController::new(PERIOD).unwrap();
    assert_eq!(held_spawns(&mut controller, 1, 5 * PERIOD), 1);
}

#[test]
fn spawn_throttle_runs_while_the_input_is_released() {
    let mut controller = SpawnController::new(PERIOD).unwrap();
    assert!(!controller.decide(20 * MILLI, IDLE).continuous);
    assert!(controller.decide(20 * MILLI, HOLD).continuous);
    // the period ran out on a released tick: the next held tick starts over
    let mut controller = SpawnController::new(PERIOD).unwrap();
    assert!(!controller.decide(40 * MILLI, IDLE).continuous);
    assert!(!controller.decide(5 * MILLI, HOLD).continuous);
    assert!(controller.decide(15 * MILLI, HOLD).continuous);
}

#[test]
fn spawn_click_fires_whatever_the_throttle() {
    let mut controller = SpawnController::new(PERIOD).unwrap();
    let first = controller.decide(0, CLICK);
    assert!(first.click);
    assert!(!first.continuous);
    assert_eq!(first.count(), 1);
    let second = controller.decide(1, CLICK);
    assert_eq!(second.count(), 1);
    // the period runs out on this tick, but the hold input is released
    let third = controller.decide(PERIOD, CLICK);
    assert!(third.click);
    assert!(!third.continuous);
    assert_eq!(third.count(), 1);
}

#[test]
fn spawn_both_triggers_fire_on_one_tick() {
    let mut controller = SpawnController::new(PERIOD).unwrap();
    let decision = controller.decide(PERIOD, BOTH);
    assert!(decision.continuous);
    assert!(decision.click);
    assert_eq!(decision.count(), 2);
    let next = controller.decide(MILLI, BOTH);
    assert!(!next.continuous);
    assert!(next.click);
}

#[test]
fn maybe_spawn_creates_a_particle_per_trigger() {
    let mut controller = SpawnController::new(PERIOD).unwrap();
    let mut store: ParticleStore<u32> = ParticleStore::new();
    let drawn = Cell::new(100u32);
    let make = || {
        drawn.set(drawn.get() + 1);
        drawn.get()
    };

    let none = controller.maybe_spawn(10 * MILLI, HOLD, &mut store, &make);
    assert_eq!((none.continuous, none.click), (None, None));
    assert_eq!(store.len(), 0);

    let click = controller.maybe_spawn(10 * MILLI, CLICK, &mut store, &make);
    assert_eq!((click.continuous, click.click), (None, Some(0)));

    let both = controller.maybe_spawn(10 * MILLI, BOTH, &mut store, &make);
    assert_eq!((both.continuous, both.click), (Some(1), Some(2)));

    let idle = controller.maybe_spawn(PERIOD, IDLE, &mut store, &make);
    assert_eq!((idle.continuous, idle.click), (None, None));

    let hold = controller.maybe_spawn(PERIOD, HOLD, &mut store, &make);
    assert_eq!((hold.continuous, hold.click), (Some(3), None));

    let seen: Vec<(u32, u32)> = store.all().iter().map(|p| (p.id, p.body)).collect();
    assert_eq!(seen, vec![(0, 101), (1, 102), (2, 103), (3, 104)]);
}

#[test]
fn maybe_spawn_holding_for_n_periods_fills_the_store_with_n() {
    let mut controller = SpawnController::new(PERIOD).unwrap();
    let mut store: ParticleStore<()> = ParticleStore::new();
    for _ in 0..50 {
        controller.maybe_spawn(6 * MILLI, HOLD, &mut store, || ());
    }
    // 50 ticks of 6 ms are 10 periods
    assert_eq!(store.len(), 10);
    let ids: Vec<u32> = store.all().iter().map(|p| p.id).collect();
    assert_eq!(ids, (0..10).collect::<Vec<u32>>());
}

#[test]
fn maybe_spawn_single_click_creates_exactly_one() {
    let mut controller = SpawnController::new(PERIOD).unwrap();
    let mut store: ParticleStore<u8> = ParticleStore::new();
    controller.maybe_spawn(7 * MILLI, IDLE, &mut store, || 0);
    controller.maybe_spawn(7 * MILLI, CLICK, &mut store, || 1);
    controller.maybe_spawn(7 * MILLI, IDLE, &mut store, || 2);
    controller.maybe_spawn(7 * MILLI, IDLE, &mut store, || 3);
    assert_eq!(store.len(), 1);
    assert_eq!(store.get(0).unwrap().body, 1);
}
