use particle_sandbox::store::{Particle, ParticleStore};

#[test]
fn store_starts_empty() {
    let store: ParticleStore<u8> = ParticleStore::new();
    assert!(store.is_empty());
    assert_eq!(store.len(), 0);
    assert!(store.all().is_empty());
    assert!(store.get(0).is_none());
}

#[test]
fn store_gives_ids_in_creation_order() {
    let mut store = ParticleStore::new();
    assert_eq!(store.create("a"), Ok(0));
    assert_eq!(store.create("b"), Ok(1));
    assert_eq!(store.create("c"), Ok(2));
    assert_eq!(store.len(), 3);
    assert!(!store.is_empty());
}

#[test]
fn store_ids_are_strictly_increasing_and_unique() {
    let mut store = ParticleStore::new();
    let mut ids = Vec::new();
    for n in 0..200u32 {
        ids.push(store.create(n * 3).unwrap());
    }
    for pair in ids.windows(2) {
        assert!(pair[0] < pair[1]);
    }
    let listed: Vec<u32> = store.all().iter().map(|p| p.id).collect();
    assert_eq!(listed, ids);
    assert_eq!(ids, (0..200u32).collect::<Vec<u32>>());
}

#[test]
fn store_lists_particles_in_creation_order() {
    let mut store = ParticleStore::new();
    store.create(10i32).unwrap();
    store.create(-4i32).unwrap();
    store.create(7i32).unwrap();
    let bodies: Vec<i32> = store.all().iter().map(|p| p.body).collect();
    assert_eq!(bodies, vec![10, -4, 7]);
}

#[test]
fn store_finds_a_particle_by_id() {
    let mut store = ParticleStore::new();
    store.create('x').unwrap();
    store.create('y').unwrap();
    let found: &Particle<char> = store.get(1).unwrap();
    assert_eq!(found.id, 1);
    assert_eq!(found.body, 'y');
    assert_eq!(store.get(0).unwrap().body, 'x');
    assert!(store.get(2).is_none());
    assert!(store.get(u32::MAX).is_none());
}

#[test]
fn store_replaces_a_body_and_keeps_ids() {
    let mut store = ParticleStore::new();
    store.create(1u8).unwrap();
    store.create(2u8).unwrap();
    store.create(3u8).unwrap();
    assert_eq!(store.replace_body(1, 20), Ok(()));
    let seen: Vec<(u32, u8)> = store.all().iter().map(|p| (p.id, p.body)).collect();
    assert_eq!(seen, vec![(0, 1), (1, 20), (2, 3)]);
    assert_eq!(store.create(4), Ok(3));
}

#[test]
fn store_hands_back_the_body_of_an_unknown_id() {
    let mut store = ParticleStore::new();
    store.create(1u8).unwrap();
    assert_eq!(store.replace_body(1, 9), Err(9));
    assert_eq!(store.replace_body(u32::MAX, 8), Err(8));
    assert_eq!(store.len(), 1);
    assert_eq!(store.get(0).unwrap().body, 1);
}
