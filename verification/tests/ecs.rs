use hecs::{Entity, World};
use moonlapse::server::messages::GameMessage;
use moonlapse::server::systems::{
    movement_fits_now, movement_system, set_entity_velocity, try_movement_system,
    try_set_entity_velocity, velocity_fits_now,
};
use moonlapse::shared::components::{Player, Position, Velocity};
use moonlapse::shared::packets::{Component, Direction};

fn spawn(w: &mut World, id: u64, vel: (i32, i32), pos: (i32, i32)) -> Entity {
    w.spawn((Player { id }, Velocity { dx: vel.0, dy: vel.1 }, Position { x: pos.0, y: pos.1 }))
}

fn bits(e: Entity) -> u64 {
    e.to_bits().get()
}

fn velocity(w: &World, e: Entity) -> (i32, i32) {
    let v = w.get::<&Velocity>(e).unwrap();
    (v.dx, v.dy)
}

fn position(w: &World, e: Entity) -> (i32, i32) {
    let p = w.get::<&Position>(e).unwrap();
    (p.x, p.y)
}

#[test]
fn movement_moves_and_resets() {
    let mut w = World::new();
    let a = spawn(&mut w, 1, (0, 0), (10, 10));
    let b = spawn(&mut w, 2, (0, 0), (0, 0));
    set_entity_velocity(&mut w, bits(a), Direction::Right);
    set_entity_velocity(&mut w, bits(a), Direction::Up);
    assert_eq!(velocity(&w, a), (1, 1));
    let updates = movement_system(&mut w);
    assert_eq!(
        updates,
        vec![GameMessage::ComponentUpdate(a.id(), Component::Position(Position { x: 11, y: 11 }))]
    );
    assert_eq!(position(&w, a), (11, 11));
    assert_eq!(velocity(&w, a), (0, 0));
    assert_eq!(position(&w, b), (0, 0));
    // nothing moves on the next tick
    assert!(movement_system(&mut w).is_empty());
}

#[test]
fn every_moving_entity_is_announced_once() {
    let mut w = World::new();
    let a = spawn(&mut w, 1, (2, -3), (1, 1));
    let b = spawn(&mut w, 2, (0, 0), (5, 5));
    let c = spawn(&mut w, 3, (-1, 0), (0, 0));
    let mut updates = movement_system(&mut w);
    updates.sort_by_key(|GameMessage::ComponentUpdate(e, _)| *e);
    let mut expected = vec![
        GameMessage::ComponentUpdate(a.id(), Component::Position(Position { x: 3, y: -2 })),
        GameMessage::ComponentUpdate(c.id(), Component::Position(Position { x: -1, y: 0 })),
    ];
    expected.sort_by_key(|GameMessage::ComponentUpdate(e, _)| *e);
    assert_eq!(updates, expected);
    assert_eq!(position(&w, b), (5, 5));
}

#[test]
fn entities_without_velocity_are_not_pushed() {
    let mut w = World::new();
    let a = w.spawn((Player { id: 1 }, Position { x: 0, y: 0 }));
    set_entity_velocity(&mut w, bits(a), Direction::Left);
    assert!(w.get::<&Velocity>(a).is_err());
    assert!(movement_system(&mut w).is_empty());
    assert_eq!(position(&w, a), (0, 0));
    // a despawned entity is not pushed either
    let b = spawn(&mut w, 2, (0, 0), (0, 0));
    w.despawn(b).unwrap();
    assert!(velocity_fits_now(&w, bits(b), Direction::Up));
    set_entity_velocity(&mut w, bits(b), Direction::Up);
    assert!(movement_system(&mut w).is_empty());
}

#[test]
fn checked_movement_refuses_overflow() {
    let mut w = World::new();
    let a = spawn(&mut w, 1, (1, 0), (i32::MAX, 0));
    assert!(!movement_fits_now(&w));
    assert_eq!(try_movement_system(&mut w), None);
    assert_eq!(position(&w, a), (i32::MAX, 0));
    assert_eq!(velocity(&w, a), (1, 0));

    let mut w = World::new();
    let a = spawn(&mut w, 1, (-1, 0), (i32::MAX, 0));
    assert!(movement_fits_now(&w));
    assert_eq!(
        try_movement_system(&mut w),
        Some(vec![GameMessage::ComponentUpdate(
            a.id(),
            Component::Position(Position { x: i32::MAX - 1, y: 0 })
        )])
    );
}

#[test]
fn checked_velocity_refuses_overflow() {
    let mut w = World::new();
    let a = spawn(&mut w, 1, (0, i32::MIN), (0, 0));
    assert!(!velocity_fits_now(&w, bits(a), Direction::Down));
    assert!(!try_set_entity_velocity(&mut w, bits(a), Direction::Down));
    assert_eq!(velocity(&w, a), (0, i32::MIN));
    assert!(try_set_entity_velocity(&mut w, bits(a), Direction::Up));
    assert_eq!(velocity(&w, a), (0, i32::MIN + 1));
}

#[test]
fn opposite_moves_cancel_and_moves_commute() {
    let mut w = World::new();
    let a = spawn(&mut w, 1, (3, -4), (0, 0));
    set_entity_velocity(&mut w, bits(a), Direction::Up);
    set_entity_velocity(&mut w, bits(a), Direction::Down);
    assert_eq!(velocity(&w, a), (3, -4));
    set_entity_velocity(&mut w, bits(a), Direction::Left);
    set_entity_velocity(&mut w, bits(a), Direction::Up);
    let one_way = velocity(&w, a);
    let b = spawn(&mut w, 2, (3, -4), (0, 0));
    set_entity_velocity(&mut w, bits(b), Direction::Up);
    set_entity_velocity(&mut w, bits(b), Direction::Left);
    assert_eq!(one_way, velocity(&w, b));
    assert_eq!(one_way, (2, -3));
}

#[test]
fn update_ids_are_the_low_bits_of_the_handle() {
    let mut w = World::new();
    let a = spawn(&mut w, 1, (1, 0), (0, 0));
    let updates = movement_system(&mut w);
    assert_eq!(updates, vec![GameMessage::ComponentUpdate(bits(a) as u32, Component::Position(Position { x: 1, y: 0 }))]);
}
