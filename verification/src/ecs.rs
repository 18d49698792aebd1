//! The game world is a `hecs` entity-component store. This module declares it
//! to Verus and gives each `hecs` call the game makes a contract; reading an
//! entity's id from its handle's bits, a few lines of arithmetic, is written
//! out and proved instead.
//!
//! An entity is named by the bits of its `hecs` handle (`Entity::to_bits`),
//! which tell live entities apart; what the world holds is a map from those
//! bits to the components each entity carries.
use vstd::prelude::*;

use hecs::{Entity, World};

use crate::legacy::game::components::Movable;
use crate::shared::components::{Player, Position, Velocity};

verus! {

#[verifier::external_type_specification]
#[verifier::external_body]
pub struct ExWorld(World);

/// The components of one entity: its player id, its position `(x, y)` and its
/// velocity `(dx, dy)`, each if it has one, and whether it is marked movable.
pub type EntityRow = (Option<u64>, Option<(i32, i32)>, Option<(i32, i32)>, bool);

/// What a world holds: each live entity, by the bits of its handle, and its
/// components.
pub uninterp spec fn world_contents(w: World) -> Map<u64, EntityRow>;

/// The id `hecs` gives the entity whose handle has these bits
/// (`Entity::from_bits` followed by `Entity::id`). `Entity::to_bits` puts the
/// generation, never zero, in the high 32 bits and the id in the low 32, and
/// `from_bits` reads them back: the id is the low 32 bits. Bits with a zero
/// high half are no handle's bits; they are given the id 0.
pub open spec fn hecs_entity_id(bits: u64) -> u32 {
    if bits >= 0x1_0000_0000 {
        (bits % 0x1_0000_0000) as u32
    } else {
        0
    }
}

pub open spec fn row_player(r: EntityRow) -> Option<u64> {
    r.0
}

pub open spec fn row_position(r: EntityRow) -> Option<(i32, i32)> {
    r.1
}

pub open spec fn row_velocity(r: EntityRow) -> Option<(i32, i32)> {
    r.2
}

pub open spec fn row_movable(r: EntityRow) -> bool {
    r.3
}

pub open spec fn with_position(r: EntityRow, p: (i32, i32)) -> EntityRow {
    (r.0, Some(p), r.2, r.3)
}

pub open spec fn with_velocity(r: EntityRow, v: (i32, i32)) -> EntityRow {
    (r.0, r.1, Some(v), r.3)
}

/// `hecs::World::new`: an empty world.
#[verifier::external_body]
pub(crate) fn world_new() -> (world: World)
    ensures
        world_contents(world) =~= Map::empty(),
{
    World::new()
}

/// `hecs::World::spawn` with the bundle `(Player, Velocity, Position)`: a new
/// live entity, whose handle no live entity had, carrying exactly these
/// components. The result is the bits of its handle.
#[verifier::external_body]
pub(crate) fn world_spawn_player(w: &mut World, player: Player, vel: Velocity, pos: Position) -> (bits:
    u64)
    ensures
        !world_contents(*old(w)).contains_key(bits),
        world_contents(*final(w)) == world_contents(*old(w)).insert(
            bits,
            (Some(player.id), Some((pos.x, pos.y)), Some((vel.dx, vel.dy)), false),
        ),
{
    w.spawn((player, vel, pos)).to_bits().get()
}

/// `hecs::World::despawn`: removes the entity with all its components; the
/// result says whether it was live.
#[verifier::external_body]
pub(crate) fn world_despawn(w: &mut World, bits: u64) -> (r: bool)
    ensures
        r == world_contents(*old(w)).contains_key(bits),
        world_contents(*final(w)) == world_contents(*old(w)).remove(bits),
{
    match Entity::from_bits(bits) {
        Some(e) => w.despawn(e).is_ok(),
        None => false,
    }
}

/// The id of the entity whose handle has these bits, as `hecs` reads it.
pub(crate) fn entity_id(bits: u64) -> (r: u32)
    ensures
        r == hecs_entity_id(bits),
{
    if bits >= 0x1_0000_0000 {
        (bits % 0x1_0000_0000) as u32
    } else {
        0
    }
}

/// `hecs::World::get` of the velocity component: the entity's velocity, if it
/// is live and has one.
#[verifier::external_body]
pub(crate) fn world_velocity(w: &World, bits: u64) -> (r: Option<Velocity>)
    ensures
        match r {
            Some(v) => world_contents(*w).contains_key(bits) && row_velocity(
                world_contents(*w)[bits],
            ) == Some((v.dx, v.dy)),
            None => !world_contents(*w).contains_key(bits) || row_velocity(
                world_contents(*w)[bits],
            ) is None,
        },
{
    match Entity::from_bits(bits) {
        Some(e) => match w.get::<&Velocity>(e) {
            Ok(v) => Some(*v),
            Err(_) => None,
        },
        None => None,
    }
}

/// `hecs::World::query_one_mut` with the query `&mut Velocity`, through which
/// the entity's velocity is overwritten, if it is live and has one; the world
/// is otherwise unchanged.
#[verifier::external_body]
pub(crate) fn world_set_velocity(w: &mut World, bits: u64, v: Velocity)
    ensures
        world_contents(*final(w)) == if world_contents(*old(w)).contains_key(bits) && row_velocity(
            world_contents(*old(w))[bits],
        ) is Some {
            world_contents(*old(w)).insert(
                bits,
                with_velocity(world_contents(*old(w))[bits], (v.dx, v.dy)),
            )
        } else {
            world_contents(*old(w))
        },
{
    if let Some(e) = Entity::from_bits(bits) {
        if let Ok(slot) = w.query_one_mut::<&mut Velocity>(e) {
            *slot = v;
        }
    }
}

/// `hecs::World::query_one_mut` with the query `&mut Position`, through which
/// the entity's position is overwritten, if it is live and has one; the world
/// is otherwise unchanged.
#[verifier::external_body]
pub(crate) fn world_set_position(w: &mut World, bits: u64, p: Position)
    ensures
        world_contents(*final(w)) == if world_contents(*old(w)).contains_key(bits) && row_position(
            world_contents(*old(w))[bits],
        ) is Some {
            world_contents(*old(w)).insert(
                bits,
                with_position(world_contents(*old(w))[bits], (p.x, p.y)),
            )
        } else {
            world_contents(*old(w))
        },
{
    if let Some(e) = Entity::from_bits(bits) {
        if let Ok(slot) = w.query_one_mut::<&mut Position>(e) {
            *slot = p;
        }
    }
}

/// `hecs::World::query` of `(Entity, &Player)`: every live entity that has a player
/// component, once each, with that component, in an order the world chooses.
#[verifier::external_body]
pub(crate) fn world_players(w: &World) -> (r: Vec<(u64, Player)>)
    ensures
        r@.map_values(|e: (u64, Player)| e.0).no_duplicates(),
        forall|i: int|
            0 <= i < r@.len() ==> world_contents(*w).contains_key(#[trigger] r@[i].0)
                && row_player(world_contents(*w)[r@[i].0]) == Some(r@[i].1.id),
        forall|b: u64|
            world_contents(*w).contains_key(b) && (#[trigger] row_player(world_contents(*w)[b]))
                is Some ==> exists|i: int| 0 <= i < r@.len() && r@[i].0 == b,
{
    w.query::<(Entity, &Player)>().iter().map(|(e, p)| (e.to_bits().get(), *p)).collect()
}

/// `hecs::World::query` of `(Entity, &Position)`: every live entity that has a position,
/// once each, with it, in an order the world chooses.
#[verifier::external_body]
pub(crate) fn world_positions(w: &World) -> (r: Vec<(u64, Position)>)
    ensures
        r@.map_values(|e: (u64, Position)| e.0).no_duplicates(),
        forall|i: int|
            0 <= i < r@.len() ==> world_contents(*w).contains_key(#[trigger] r@[i].0)
                && row_position(world_contents(*w)[r@[i].0]) == Some((r@[i].1.x, r@[i].1.y)),
        forall|b: u64|
            world_contents(*w).contains_key(b) && (#[trigger] row_position(world_contents(*w)[b]))
                is Some ==> exists|i: int| 0 <= i < r@.len() && r@[i].0 == b,
{
    w.query::<(Entity, &Position)>().iter().map(|(e, p)| (e.to_bits().get(), *p)).collect()
}

/// `hecs::World::query` of `(Entity, &Position, &Velocity)`: every live entity that has
/// both, once each, with them, in an order the world chooses.
#[verifier::external_body]
pub(crate) fn world_movers(w: &World) -> (r: Vec<(u64, Position, Velocity)>)
    ensures
        r@.map_values(|e: (u64, Position, Velocity)| e.0).no_duplicates(),
        forall|i: int|
            0 <= i < r@.len() ==> world_contents(*w).contains_key(#[trigger] r@[i].0)
                && row_position(world_contents(*w)[r@[i].0]) == Some((r@[i].1.x, r@[i].1.y))
                && row_velocity(world_contents(*w)[r@[i].0]) == Some((r@[i].2.dx, r@[i].2.dy)),
        forall|b: u64|
            world_contents(*w).contains_key(b) && row_position(world_contents(*w)[b]) is Some
                && (#[trigger] row_velocity(world_contents(*w)[b])) is Some ==> exists|i: int|
                0 <= i < r@.len() && r@[i].0 == b,
{
    w.query::<(Entity, &Position, &Velocity)>().iter().map(|(e, p, v)| (e.to_bits().get(), *p, *v)).collect()
}

/// `hecs::World::spawn` with the bundle `(Player, Movable, Position)`: a new
/// live entity, whose handle no live entity had, carrying exactly these
/// components. The result is the bits of its handle.
#[verifier::external_body]
pub(crate) fn world_spawn_movable_player(w: &mut World, player: Player, pos: Position) -> (bits: u64)
    ensures
        !world_contents(*old(w)).contains_key(bits),
        world_contents(*final(w)) == world_contents(*old(w)).insert(
            bits,
            (Some(player.id), Some((pos.x, pos.y)), None, true),
        ),
{
    w.spawn((player, Movable {}, pos)).to_bits().get()
}

/// `hecs::World::get` of the movable marker: whether the entity is live and
/// marked movable.
#[verifier::external_body]
pub(crate) fn world_is_movable(w: &World, bits: u64) -> (r: bool)
    ensures
        r == (world_contents(*w).contains_key(bits) && row_movable(world_contents(*w)[bits])),
{
    match Entity::from_bits(bits) {
        Some(e) => w.get::<&Movable>(e).is_ok(),
        None => false,
    }
}

/// `hecs::World::get` of the position component: the entity's position, if it
/// is live and has one.
#[verifier::external_body]
pub(crate) fn world_position(w: &World, bits: u64) -> (r: Option<Position>)
    ensures
        match r {
            Some(p) => world_contents(*w).contains_key(bits) && row_position(
                world_contents(*w)[bits],
            ) == Some((p.x, p.y)),
            None => !world_contents(*w).contains_key(bits) || row_position(
                world_contents(*w)[bits],
            ) is None,
        },
{
    match Entity::from_bits(bits) {
        Some(e) => match w.get::<&Position>(e) {
            Ok(p) => Some(*p),
            Err(_) => None,
        },
        None => None,
    }
}

} // verus!
