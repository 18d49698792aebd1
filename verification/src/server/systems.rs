//! The systems that advance the game world.
use vstd::prelude::*;

use hecs::World;

use crate::ecs::{
    EntityRow, world_contents, hecs_entity_id, row_position, row_velocity, with_velocity,
    world_movers, world_set_position, world_set_velocity, world_velocity, entity_id,
};
use crate::server::messages::GameMessage;
use crate::shared::components::{Position, Velocity};
use crate::shared::packets::{Component, Direction};

verus! {

/// The change of velocity that a move in a direction asks for.
pub open spec fn direction_delta(d: Direction) -> (int, int) {
    match d {
        Direction::Up => (0, 1),
        Direction::Down => (0, -1),
        Direction::Right => (1, 0),
        Direction::Left => (-1, 0),
    }
}

pub open spec fn fits_i32(n: int) -> bool {
    i32::MIN <= n <= i32::MAX
}

/// Adding the move to the entity's velocity, if it has one, stays within range.
pub open spec fn velocity_fits(world: Map<u64, EntityRow>, entity: u64, dir: Direction) -> bool {
    world.contains_key(entity) && row_velocity(world[entity]) is Some ==> {
        let (vx, vy) = row_velocity(world[entity])->0;
        fits_i32(vx + direction_delta(dir).0) && fits_i32(vy + direction_delta(dir).1)
    }
}

/// The world after the move is added to the entity's velocity, if it has one.
pub open spec fn pushed(world: Map<u64, EntityRow>, entity: u64, dir: Direction) -> Map<
    u64,
    EntityRow,
> {
    if world.contains_key(entity) && row_velocity(world[entity]) is Some {
        let (vx, vy) = row_velocity(world[entity])->0;
        world.insert(
            entity,
            with_velocity(
                world[entity],
                ((vx + direction_delta(dir).0) as i32, (vy + direction_delta(dir).1) as i32),
            ),
        )
    } else {
        world
    }
}

/// The entity moves this tick: it has a position and a velocity other than zero.
pub open spec fn row_moves(r: EntityRow) -> bool {
    match (r.1, r.2) {
        (Some(_), Some((dx, dy))) => dx != 0 || dy != 0,
        _ => false,
    }
}

/// The position after one tick of movement.
pub open spec fn moved_position(r: EntityRow) -> (i32, i32) {
    let (x, y) = r.1->0;
    let (dx, dy) = r.2->0;
    ((x + dx) as i32, (y + dy) as i32)
}

/// One tick of movement for one entity: a moving entity's velocity is added to
/// its position and reset to zero; any other entity is unchanged.
pub open spec fn step_row(r: EntityRow) -> EntityRow {
    if row_moves(r) {
        (r.0, Some(moved_position(r)), Some((0i32, 0i32)), r.3)
    } else {
        r
    }
}

/// One tick of movement for the whole world.
pub open spec fn moved(world: Map<u64, EntityRow>) -> Map<u64, EntityRow> {
    Map::new(|b: u64| world.contains_key(b), |b: u64| step_row(world[b]))
}

/// Each entity with a position and a velocity can add one to the other.
pub open spec fn movement_fits(world: Map<u64, EntityRow>) -> bool {
    forall|b: u64|
        #![trigger world[b]]
        world.contains_key(b) && row_position(world[b]) is Some && row_velocity(world[b]) is Some
            ==> {
            let (x, y) = row_position(world[b])->0;
            let (dx, dy) = row_velocity(world[b])->0;
            fits_i32(x + dx) && fits_i32(y + dy)
        }
}

/// The update announcing an entity's new position.
pub open spec fn position_update(world: Map<u64, EntityRow>, b: u64) -> GameMessage {
    let (x, y) = moved_position(world[b]);
    GameMessage::ComponentUpdate(hecs_entity_id(b), Component::Position(Position { x, y }))
}

/// The updates announce each moving entity once, in some order.
pub open spec fn announces_moves(world: Map<u64, EntityRow>, updates: Seq<GameMessage>) -> bool {
    exists|bs: Seq<u64>|
        {
            &&& bs.no_duplicates()
            &&& bs.to_set() == world.dom().filter(|b: u64| row_moves(world[b]))
            &&& updates == bs.map_values(|b: u64| position_update(world, b))
        }
}

/// Moves every entity that has a velocity by that velocity, resets the
/// velocity, and returns an update for each entity that moved.
pub fn movement_system(world: &mut World) -> (updates: Vec<GameMessage>)
    requires
        movement_fits(world_contents(*old(world))),
    ensures
        world_contents(*final(world)) == moved(world_contents(*old(world))),
        announces_moves(world_contents(*old(world)), updates@),
{
    let ghost w0 = world_contents(*world);
    let movers = world_movers(world);
    let ghost keys = movers@.map_values(|e: (u64, Position, Velocity)| e.0);
    let ghost mut bs: Seq<u64> = Seq::empty();
    let mut to_broadcast: Vec<GameMessage> = Vec::new();
    let mut i: usize = 0;
    while i < movers.len()
        invariant
            0 <= i <= movers.len(),
            movement_fits(w0),
            keys == movers@.map_values(|e: (u64, Position, Velocity)| e.0),
            keys.no_duplicates(),
            forall|j: int|
                0 <= j < movers@.len() ==> w0.contains_key(#[trigger] movers@[j].0) && row_position(
                    w0[movers@[j].0],
                ) == Some((movers@[j].1.x, movers@[j].1.y)) && row_velocity(w0[movers@[j].0])
                    == Some((movers@[j].2.dx, movers@[j].2.dy)),
            forall|b: u64|
                w0.contains_key(b) && row_position(w0[b]) is Some && (#[trigger] row_velocity(
                    w0[b],
                )) is Some ==> exists|j: int| 0 <= j < movers@.len() && movers@[j].0 == b,
            world_contents(*world) == Map::new(
                |b: u64| w0.contains_key(b),
                |b: u64|
                    if keys.take(i as int).contains(b) {
                        step_row(w0[b])
                    } else {
                        w0[b]
                    },
            ),
            bs.no_duplicates(),
            bs.to_set() == keys.take(i as int).to_set().filter(|b: u64| row_moves(w0[b])),
            to_broadcast@ == bs.map_values(|b: u64| position_update(w0, b)),
        decreases movers.len() - i,
    {
        let (b, pos, vel) = movers[i];
        assert(keys[i as int] == b);
        let ghost pre = keys.take(i as int);
        let ghost post = keys.take(i + 1);
        assert(post =~= pre.push(b));
        assert(!pre.contains(b)) by {
            if pre.contains(b) {
                let j = choose|j: int| 0 <= j < pre.len() && #[trigger] pre[j] == b;
                assert(keys[j] == keys[i as int]);
            }
        }
            assert forall|x: u64| post.contains(x) <==> (pre.contains(x) || x == b) by {
                if pre.contains(x) {
                    let j = choose|j: int| 0 <= j < pre.len() && #[trigger] pre[j] == x;
                    assert(post[j] == x);
                }
                if post.contains(x) && x != b {
                    let j = choose|j: int| 0 <= j < post.len() && #[trigger] post[j] == x;
                    assert(pre[j] == x);
                }
                if x == b {
                    assert(post[post.len() - 1] == b);
                }
            }
        let ghost cur = world_contents(*world);
        assert(cur[b] == w0[b]);
        // filter out entities whose velocity is zero
        if vel.dx == 0 && vel.dy == 0 {
            assert(!row_moves(w0[b]));
            assert(world_contents(*world) =~= Map::new(
                |k: u64| w0.contains_key(k),
                |k: u64|
                    if post.contains(k) {
                        step_row(w0[k])
                    } else {
                        w0[k]
                    },
            ));
            assert(bs.to_set() =~= post.to_set().filter(|k: u64| row_moves(w0[k])));
        } else {
            assert(row_moves(w0[b]));
            let new_pos = Position { x: pos.x + vel.dx, y: pos.y + vel.dy };
            assert(cur.contains_key(b) && row_position(cur[b]) is Some);
            world_set_position(world, b, new_pos);
            let ghost mid = world_contents(*world);
            assert(mid == cur.insert(b, (w0[b].0, Some((new_pos.x, new_pos.y)), w0[b].2, w0[b].3)));
            world_set_velocity(world, b, Velocity { dx: 0, dy: 0 });
            assert(world_contents(*world) == cur.insert(b, step_row(w0[b])));
            assert(world_contents(*world) =~= Map::new(
                |k: u64| w0.contains_key(k),
                |k: u64|
                    if post.contains(k) {
                        step_row(w0[k])
                    } else {
                        w0[k]
                    },
            ));
            // queue up an update packet
            let eid = entity_id(b);
            to_broadcast.push(GameMessage::ComponentUpdate(eid, Component::Position(new_pos)));
            proof {
                let old_bs = bs;
                bs = bs.push(b);
                assert(!old_bs.contains(b)) by {
                    if old_bs.contains(b) {
                        assert(old_bs.to_set().contains(b));
                    }
                }
                assert forall|x: u64| bs.contains(x) <==> (old_bs.contains(x) || x == b) by {
                    if old_bs.contains(x) {
                        let j = choose|j: int| 0 <= j < old_bs.len() && #[trigger] old_bs[j] == x;
                        assert(bs[j] == x);
                    }
                    if bs.contains(x) && x != b {
                        let j = choose|j: int| 0 <= j < bs.len() && #[trigger] bs[j] == x;
                        assert(old_bs[j] == x);
                    }
                    if x == b {
                        assert(bs[bs.len() - 1] == b);
                    }
                }
                assert(old_bs.to_set() == pre.to_set().filter(|k: u64| row_moves(w0[k])));
                assert forall|x: u64|
                    bs.to_set().contains(x) <==> post.to_set().filter(|k: u64| row_moves(w0[k])).contains(x) by {
                    if x != b {
                        assert(old_bs.to_set().contains(x) <==> pre.to_set().filter(|k: u64| row_moves(w0[k])).contains(x));
                    }
                }
                assert(bs.to_set() =~= post.to_set().filter(|k: u64| row_moves(w0[k])));
                assert(to_broadcast@ =~= bs.map_values(|k: u64| position_update(w0, k)));
            }
        }
        i = i + 1;
    }
    proof {
        assert(keys.take(i as int) =~= keys);
        assert(world_contents(*world) =~= moved(w0)) by {
            assert forall|b: u64| w0.contains_key(b) && !keys.contains(b) implies step_row(w0[b])
                == w0[b] by {
                if row_position(w0[b]) is Some && row_velocity(w0[b]) is Some {
                    let j = choose|j: int| 0 <= j < movers@.len() && movers@[j].0 == b;
                    assert(keys[j] == b);
                }
            }
        }
        assert(keys.to_set().filter(|b: u64| row_moves(w0[b])) =~= w0.dom().filter(
            |b: u64| row_moves(w0[b]),
        )) by {
            assert forall|b: u64| w0.contains_key(b) && row_moves(w0[b]) implies keys.contains(b) by {
                let j = choose|j: int| 0 <= j < movers@.len() && movers@[j].0 == b;
                assert(keys[j] == b);
            }
            assert forall|b: u64| keys.contains(b) implies w0.contains_key(b) by {
                let j = choose|j: int| 0 <= j < keys.len() && keys[j] == b;
                assert(movers@[j].0 == b);
            }
        }
    }
    to_broadcast
}

/// Whether one tick of movement keeps every position in range.
pub fn movement_fits_now(world: &World) -> (r: bool)
    ensures
        r == movement_fits(world_contents(*world)),
{
    let ghost w = world_contents(*world);
    let movers = world_movers(world);
    let mut i: usize = 0;
    while i < movers.len()
        invariant
            0 <= i <= movers.len(),
            w == world_contents(*world),
            forall|j: int|
                0 <= j < movers@.len() ==> w.contains_key(#[trigger] movers@[j].0) && row_position(
                    w[movers@[j].0],
                ) == Some((movers@[j].1.x, movers@[j].1.y)) && row_velocity(w[movers@[j].0])
                    == Some((movers@[j].2.dx, movers@[j].2.dy)),
            forall|b: u64|
                w.contains_key(b) && row_position(w[b]) is Some && (#[trigger] row_velocity(
                    w[b],
                )) is Some ==> exists|j: int| 0 <= j < movers@.len() && movers@[j].0 == b,
            forall|j: int|
                #![trigger movers@[j]]
                0 <= j < i ==> fits_i32(movers@[j].1.x + movers@[j].2.dx) && fits_i32(
                    movers@[j].1.y + movers@[j].2.dy,
                ),
        decreases movers.len() - i,
    {
        let (_, p, v) = movers[i];
        let x = p.x as i64 + v.dx as i64;
        let y = p.y as i64 + v.dy as i64;
        if !(-2147483648i64 <= x && x <= 2147483647i64 && -2147483648i64 <= y && y
            <= 2147483647i64) {
            assert(!movement_fits(w)) by {
                let b = movers@[i as int].0;
                assert(w.contains_key(b));
            }
            return false;
        }
        assert(fits_i32(movers@[i as int].1.x + movers@[i as int].2.dx));
        i = i + 1;
    }
    assert(movement_fits(w)) by {
        assert forall|b: u64|
            #![trigger w[b]]
            w.contains_key(b) && row_position(w[b]) is Some && row_velocity(w[b]) is Some implies {
                let (x, y) = row_position(w[b])->0;
                let (dx, dy) = row_velocity(w[b])->0;
                fits_i32(x + dx) && fits_i32(y + dy)
            } by {
            let j = choose|j: int| 0 <= j < movers@.len() && movers@[j].0 == b;
            assert(fits_i32(movers@[j].1.x + movers@[j].2.dx));
        }
    }
    true
}

/// Moves every entity as [`movement_system`] does when that keeps every
/// position in range; otherwise leaves the world as it is and returns `None`.
pub fn try_movement_system(world: &mut World) -> (r: Option<Vec<GameMessage>>)
    ensures
        match r {
            Some(updates) => movement_fits(world_contents(*old(world))) && world_contents(
                *final(world),
            ) == moved(world_contents(*old(world))) && announces_moves(
                world_contents(*old(world)),
                updates@,
            ),
            None => !movement_fits(world_contents(*old(world))) && *final(world) == *old(world),
        },
{
    if movement_fits_now(world) {
        Some(movement_system(world))
    } else {
        None
    }
}

/// Whether adding the move to the entity's velocity keeps it in range.
pub fn velocity_fits_now(world: &World, entity: u64, dir: Direction) -> (r: bool)
    ensures
        r == velocity_fits(world_contents(*world), entity, dir),
{
    match world_velocity(world, entity) {
        None => true,
        Some(v) => {
            let (dx, dy): (i64, i64) = match dir {
                Direction::Up => (0, 1),
                Direction::Down => (0, -1),
                Direction::Right => (1, 0),
                Direction::Left => (-1, 0),
            };
            let x = v.dx as i64 + dx;
            let y = v.dy as i64 + dy;
            -2147483648i64 <= x && x <= 2147483647i64 && -2147483648i64 <= y && y <= 2147483647i64
        },
    }
}

/// Adds the move as [`set_entity_velocity`] does when that keeps the velocity
/// in range, and says whether it did; otherwise leaves the world as it is.
pub fn try_set_entity_velocity(world: &mut World, entity: u64, dir: Direction) -> (r: bool)
    ensures
        r == velocity_fits(world_contents(*old(world)), entity, dir),
        r ==> world_contents(*final(world)) == pushed(world_contents(*old(world)), entity, dir),
        !r ==> *final(world) == *old(world),
{
    if velocity_fits_now(world, entity, dir) {
        set_entity_velocity(world, entity, dir);
        true
    } else {
        false
    }
}

/// Adds the move in a direction to the entity's velocity, if it has one.
pub fn set_entity_velocity(world: &mut World, entity: u64, dir: Direction)
    requires
        velocity_fits(world_contents(*old(world)), entity, dir),
    ensures
        world_contents(*final(world)) == pushed(world_contents(*old(world)), entity, dir),
{
    let (dx, dy): (i32, i32) = match dir {
        Direction::Up => (0, 1),
        Direction::Down => (0, -1),
        Direction::Right => (1, 0),
        Direction::Left => (-1, 0),
    };
    // is entity movable?
    if let Some(vel) = world_velocity(world, entity) {
        world_set_velocity(world, entity, Velocity { dx: vel.dx + dx, dy: vel.dy + dy });
    }
}

// ---------------------------------------------------------------------------
// Laws
// ---------------------------------------------------------------------------
/// The direction that undoes a move.
pub open spec fn opposite(d: Direction) -> Direction {
    match d {
        Direction::Up => Direction::Down,
        Direction::Down => Direction::Up,
        Direction::Left => Direction::Right,
        Direction::Right => Direction::Left,
    }
}

/// Two moves added to an entity's velocity give the same world in either
/// order.
pub proof fn lemma_velocity_changes_commute(
    world: Map<u64, EntityRow>,
    entity: u64,
    d1: Direction,
    d2: Direction,
)
    requires
        velocity_fits(world, entity, d1),
        velocity_fits(pushed(world, entity, d1), entity, d2),
        velocity_fits(world, entity, d2),
        velocity_fits(pushed(world, entity, d2), entity, d1),
    ensures
        pushed(pushed(world, entity, d1), entity, d2) == pushed(
            pushed(world, entity, d2),
            entity,
            d1,
        ),
{
    assert(pushed(pushed(world, entity, d1), entity, d2) =~= pushed(
        pushed(world, entity, d2),
        entity,
        d1,
    ));
}

/// A move followed by the opposite move restores the world; a move of an
/// entity that is not live or has no velocity changes nothing.
pub proof fn lemma_opposite_moves_cancel(world: Map<u64, EntityRow>, entity: u64, d: Direction)
    requires
        velocity_fits(world, entity, d),
        velocity_fits(pushed(world, entity, d), entity, opposite(d)),
    ensures
        pushed(pushed(world, entity, d), entity, opposite(d)) == world,
        !(world.contains_key(entity) && row_velocity(world[entity]) is Some) ==> pushed(
            world,
            entity,
            d,
        ) == world,
{
    if world.contains_key(entity) && row_velocity(world[entity]) is Some {
        let r = world[entity];
        assert(pushed(pushed(world, entity, d), entity, opposite(d))[entity] == r);
        assert(pushed(pushed(world, entity, d), entity, opposite(d)) =~= world);
    }
}

/// A move request adds one step to the entity's velocity: Up adds one to
/// `dy`, Down takes one from it, Right adds one to `dx`, Left takes one from
/// it; nothing else in the world changes.
pub proof fn lemma_move_request_velocity(world: Map<u64, EntityRow>, entity: u64, d: Direction)
    requires
        world.contains_key(entity),
        row_velocity(world[entity]) is Some,
        velocity_fits(world, entity, d),
    ensures
        ({
            let r = world[entity];
            let (vx, vy) = r.2->0;
            let (nx, ny) = if d == Direction::Up {
                (vx as int, vy + 1)
            } else if d == Direction::Down {
                (vx as int, vy - 1)
            } else if d == Direction::Right {
                (vx + 1, vy as int)
            } else {
                (vx - 1, vy as int)
            };
            &&& fits_i32(nx) && fits_i32(ny)
            &&& pushed(world, entity, d) == world.insert(
                entity,
                (r.0, r.1, Some((nx as i32, ny as i32)), r.3),
            )
        }),
{
}

/// One tick of movement adds each moving entity's velocity to its position
/// and sets the velocity to zero; an entity whose velocity is zero, or that
/// lacks a position or a velocity, keeps its components.
pub proof fn lemma_movement_adds_velocity(world: Map<u64, EntityRow>, b: u64)
    requires
        world.contains_key(b),
        movement_fits(world),
    ensures
        ({
            let r = world[b];
            match (r.1, r.2) {
                (Some((x, y)), Some((dx, dy))) => if dx != 0 || dy != 0 {
                    &&& fits_i32(x + dx) && fits_i32(y + dy)
                    &&& moved(world)[b] == (
                        r.0,
                        Some(((x + dx) as i32, (y + dy) as i32)),
                        Some((0i32, 0i32)),
                        r.3,
                    )
                } else {
                    moved(world)[b] == r
                },
                _ => moved(world)[b] == r,
            }
        }),
        moved(world).dom() == world.dom(),
{
    assert(moved(world).dom() =~= world.dom());
    let r = world[b];
    if r.1 is Some && r.2 is Some {
        assert(row_position(world[b]) is Some && row_velocity(world[b]) is Some);
    }
}

} // verus!
