use solar_sim::controls::{Engines, RotationEngines};
use solar_sim::ship::TheShip;
use solar_sim::world::{WorldError, WorldState};

fn back_only() -> Engines {
    Engines { front: false, back: true, left: false, right: false, up: false, down: false }
}

fn left_only() -> RotationEngines {
    RotationEngines { left: true, right: false, up: false, down: false }
}

#[test]
fn new_world_is_empty() {
    let world: WorldState<u32> = WorldState::new();
    assert_eq!(world.ship_count(), 0);
    assert!(!world.has_ship(1));
    assert_eq!(world.get_ship(1), None);
    assert!(world.snapshot_ships().is_empty());
    assert!(world.ship_ids().is_empty());
}

#[test]
fn with_id_builds_an_idle_ship() {
    let ship = TheShip::with_id(42, 7u32);
    assert_eq!(ship.uuid, 42);
    assert_eq!(ship.body, 7);
    assert_eq!(ship.engines, Engines::idle());
    assert_eq!(ship.rotation_engines, RotationEngines::idle());
}

#[test]
fn new_ship_draws_a_version_four_uuid() {
    let ship = TheShip::new(0u32);
    assert_eq!(ship.engines, Engines::idle());
    assert_eq!(ship.rotation_engines, RotationEngines::idle());
    assert_eq!(ship.body, 0);
    assert_eq!((ship.uuid >> 76) & 0xf, 4);
    assert_eq!((ship.uuid >> 62) & 0x3, 2);
    let parsed = uuid::Uuid::from_u128(ship.uuid);
    assert_eq!(parsed.get_version_num(), 4);
}

#[test]
fn new_ships_draw_different_identifiers() {
    let a = TheShip::new(0u32);
    let b = TheShip::new(0u32);
    assert_ne!(a.uuid, b.uuid);
}

#[test]
fn add_ship_registers_under_its_own_id() {
    let mut world = WorldState::new();
    let ship = TheShip::with_id(5, 11u32);
    assert_eq!(world.add_ship(ship), Ok(5));
    assert_eq!(world.ship_count(), 1);
    assert!(world.has_ship(5));
    assert_eq!(world.get_ship(5), Some(ship));
}

#[test]
fn add_ship_refuses_a_duplicate_and_keeps_the_first() {
    let mut world = WorldState::new();
    assert_eq!(world.add_ship(TheShip::with_id(5, 11u32)), Ok(5));
    assert_eq!(world.add_ship(TheShip::with_id(5, 99u32)), Err(WorldError::DuplicateId));
    assert_eq!(world.ship_count(), 1);
    assert_eq!(world.get_ship(5), Some(TheShip::with_id(5, 11u32)));
}

#[test]
fn remove_ship_is_a_no_op_for_an_absent_id() {
    let mut world = WorldState::new();
    assert_eq!(world.add_ship(TheShip::with_id(5, 11u32)), Ok(5));
    assert!(!world.remove_ship(6));
    assert_eq!(world.ship_count(), 1);
    assert!(world.remove_ship(5));
    assert_eq!(world.ship_count(), 0);
    assert!(!world.remove_ship(5));
    assert_eq!(world.ship_count(), 0);
    assert_eq!(world.get_ship(5), None);
}

#[test]
fn setters_change_one_group_of_one_ship() {
    let mut world = WorldState::new();
    assert_eq!(world.add_ship(TheShip::with_id(1, 10u32)), Ok(1));
    assert_eq!(world.add_ship(TheShip::with_id(2, 20u32)), Ok(2));

    assert!(world.set_engines(1, back_only()));
    let mut expected = TheShip::with_id(1, 10u32);
    expected.engines = back_only();
    assert_eq!(world.get_ship(1), Some(expected));
    assert_eq!(world.get_ship(2), Some(TheShip::with_id(2, 20u32)));

    assert!(world.set_rotation_engines(1, left_only()));
    expected.rotation_engines = left_only();
    assert_eq!(world.get_ship(1), Some(expected));

    assert!(world.set_body(1, 77));
    expected.body = 77;
    assert_eq!(world.get_ship(1), Some(expected));
    assert_eq!(world.get_ship(2), Some(TheShip::with_id(2, 20u32)));
    assert_eq!(world.ship_count(), 2);
}

#[test]
fn setters_do_nothing_for_an_absent_ship() {
    let mut world = WorldState::new();
    assert_eq!(world.add_ship(TheShip::with_id(1, 10u32)), Ok(1));
    assert!(!world.set_engines(9, back_only()));
    assert!(!world.set_rotation_engines(9, left_only()));
    assert!(!world.set_body(9, 5));
    assert_eq!(world.ship_count(), 1);
    assert!(!world.has_ship(9));
    assert_eq!(world.get_ship(1), Some(TheShip::with_id(1, 10u32)));
}

#[test]
fn snapshot_lists_each_ship_once() {
    let mut world = WorldState::new();
    for id in 1u128..=4 {
        assert_eq!(world.add_ship(TheShip::with_id(id, id as u32 * 10)), Ok(id));
    }
    let mut ships = world.snapshot_ships();
    ships.sort_by_key(|ship| ship.uuid);
    assert_eq!(
        ships,
        vec![
            TheShip::with_id(1, 10u32),
            TheShip::with_id(2, 20u32),
            TheShip::with_id(3, 30u32),
            TheShip::with_id(4, 40u32),
        ]
    );
    let mut ids = world.ship_ids();
    ids.sort();
    assert_eq!(ids, vec![1, 2, 3, 4]);
}

#[test]
fn update_advances_every_ship_once_and_keeps_controls() {
    let mut world = WorldState::new();
    assert_eq!(world.add_ship(TheShip::with_id(1, 10u32)), Ok(1));
    assert_eq!(world.add_ship(TheShip::with_id(2, 20u32)), Ok(2));
    assert!(world.set_engines(2, back_only()));

    world.update(|ship: TheShip<u32>| ship.body + if ship.engines.back { 100 } else { 1 });

    assert_eq!(world.ship_count(), 2);
    assert_eq!(world.get_ship(1), Some(TheShip::with_id(1, 11u32)));
    let mut second = TheShip::with_id(2, 120u32);
    second.engines = back_only();
    assert_eq!(world.get_ship(2), Some(second));
}

#[test]
fn update_of_an_empty_world_does_nothing() {
    let mut world: WorldState<u32> = WorldState::new();
    world.update(|ship: TheShip<u32>| ship.body + 1);
    assert_eq!(world.ship_count(), 0);
}

#[test]
fn kinematic_state_may_hold_floats() {
    let mut world = WorldState::new();
    assert_eq!(world.add_ship(TheShip::with_id(1, (0.0f64, 0.0f64, 450.0f64))), Ok(1));
    world.update(|ship: TheShip<(f64, f64, f64)>| (ship.body.0 + 0.5, ship.body.1, ship.body.2));
    assert_eq!(world.get_ship(1).map(|ship| ship.body), Some((0.5, 0.0, 450.0)));
}

#[test]
fn back_thruster_adds_heading_times_dt_times_power() {
    // Kinematic state for this test: velocity and heading; thruster power 1.0.
    let velocity = (0.25f64, -1.5f64, 3.0f64);
    let heading = (0.0f64, 0.6f64, -0.8f64);
    let dt = 0.5f64;
    let power = 1.0f64;

    let mut world = WorldState::new();
    assert_eq!(world.add_ship(TheShip::with_id(1, (velocity, heading))), Ok(1));
    assert!(world.set_engines(1, back_only()));

    world.update(|ship: TheShip<((f64, f64, f64), (f64, f64, f64))>| {
        let (v, h) = ship.body;
        let axes = ship.engines.thrust_axes();
        let along = f64::from(axes.heading);
        assert_eq!(axes.vertical, 0);
        assert_eq!(axes.lateral, 0);
        (
            (
                v.0 + along * (h.0 * dt * power),
                v.1 + along * (h.1 * dt * power),
                v.2 + along * (h.2 * dt * power),
            ),
            h,
        )
    });

    let after = world.get_ship(1).unwrap().body.0;
    assert_eq!(after.0, velocity.0 + heading.0 * dt * power);
    assert_eq!(after.1, velocity.1 + heading.1 * dt * power);
    assert_eq!(after.2, velocity.2 + heading.2 * dt * power);
    assert_eq!(after, (0.25, -1.2, 2.6));
}
