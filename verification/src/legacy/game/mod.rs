//! The first version's game: players join, move one step per request and leave.
pub mod components;
pub mod messages;

use vstd::prelude::*;

use std::collections::HashMap;

use hecs::World;

use crate::ecs::{
    EntityRow, world_contents, hecs_entity_id, row_player, row_position, row_movable,
    with_position, world_new, world_spawn_movable_player, world_despawn, world_is_movable,
    world_position, world_set_position, entity_id,
};
use crate::legacy::game::messages::{GameMessage, GameMessageView};
use crate::legacy::net::packets::{Component, Direction, Packet, NetPacketView};
use crate::server::systems::fits_i32;
use crate::shared::components::{Player, Position};

verus! {

broadcast use vstd::std_specs::hash::group_hash_axioms;

pub struct GameOptions {
    pub tick_rate: u8,
}

/// The step a move in a direction takes.
pub open spec fn step_of(d: Direction) -> (int, int) {
    match d {
        Direction::Up => (0, 1),
        Direction::Down => (0, -1),
        Direction::Right => (1, 0),
        Direction::Left => (-1, 0),
    }
}

/// The connection plays a movable entity that has a position.
pub open spec fn can_move(world: Map<u64, EntityRow>, map: Map<u64, u64>, c: u64) -> bool {
    &&& map.contains_key(c)
    &&& world.contains_key(map[c])
    &&& row_movable(world[map[c]])
    &&& row_position(world[map[c]]) is Some
}

/// Moving the connection's entity by `(dx, dy)` keeps its position in range.
pub open spec fn translate_fits(
    world: Map<u64, EntityRow>,
    map: Map<u64, u64>,
    c: u64,
    dx: int,
    dy: int,
) -> bool {
    can_move(world, map, c) ==> {
        let (x, y) = row_position(world[map[c]])->0;
        fits_i32(x + dx) && fits_i32(y + dy)
    }
}

/// What moving a connection's entity does: it moves when it can, and the move
/// is broadcast.
pub open spec fn translate_post(
    world: Map<u64, EntityRow>,
    map: Map<u64, u64>,
    c: u64,
    dx: int,
    dy: int,
    world2: Map<u64, EntityRow>,
    out: Seq<GameMessageView>,
) -> bool {
    if can_move(world, map, c) {
        let b = map[c];
        let (x, y) = row_position(world[b])->0;
        let p = Position { x: (x + dx) as i32, y: (y + dy) as i32 };
        &&& world2 == world.insert(b, with_position(world[b], (p.x, p.y)))
        &&& out == seq![
            GameMessageView::Broadcast(
                NetPacketView::ComponentUpdate(hecs_entity_id(b), Component::Position(p)),
            ),
        ]
    } else {
        &&& world2 == world
        &&& out == Seq::<GameMessageView>::empty()
    }
}

/// Whether handling the message keeps every number in range.
pub open spec fn message_fits(world: Map<u64, EntityRow>, map: Map<u64, u64>, m: GameMessageView) -> bool {
    match m {
        GameMessageView::PacketFromClient(c, NetPacketView::Translate(d)) => translate_fits(
            world,
            map,
            c,
            step_of(d).0,
            step_of(d).1,
        ),
        _ => true,
    }
}

/// What handling a message does.
pub open spec fn message_post(
    world: Map<u64, EntityRow>,
    map: Map<u64, u64>,
    m: GameMessageView,
    world2: Map<u64, EntityRow>,
    map2: Map<u64, u64>,
    out: Seq<GameMessageView>,
) -> bool {
    match m {
        GameMessageView::PacketFromClient(c, NetPacketView::Translate(d)) => {
            &&& translate_post(world, map, c, step_of(d).0, step_of(d).1, world2, out)
            &&& map2 == map
        },
        GameMessageView::ClientDisconnected(c) => {
            &&& world2 == if map.contains_key(c) {
                world.remove(map[c])
            } else {
                world
            }
            &&& map2 == map.remove(c)
            &&& out == Seq::<GameMessageView>::empty()
        },
        GameMessageView::ClientConnected(c) => {
            let b = map2[c];
            &&& !world.contains_key(b)
            &&& world2 == world.insert(b, (Some(c), Some((0i32, 0i32)), None, true))
            &&& map2 == map.insert(c, b)
            &&& out == seq![
                GameMessageView::Broadcast(
                    NetPacketView::ComponentUpdate(
                        hecs_entity_id(b),
                        Component::Position(Position { x: 0, y: 0 }),
                    ),
                ),
                GameMessageView::Broadcast(
                    NetPacketView::ComponentUpdate(
                        hecs_entity_id(b),
                        Component::Player(Player { id: c }),
                    ),
                ),
            ]
        },
        _ => {
            &&& world2 == world
            &&& map2 == map
            &&& out == Seq::<GameMessageView>::empty()
        },
    }
}

pub struct Game {
    opts: GameOptions,
    world: World,
    /// Mapping of player connection_id -> in-game entity (the bits of its handle)
    conn_entity_map: HashMap<u64, u64>,
}

impl Game {
    pub closed spec fn world_view(&self) -> Map<u64, EntityRow> {
        world_contents(self.world)
    }

    pub closed spec fn entities(&self) -> Map<u64, u64> {
        self.conn_entity_map@
    }

    pub closed spec fn spec_tick_rate(&self) -> u8 {
        self.opts.tick_rate
    }

    /// Each connection plays a live, movable entity of its own, which carries its
    /// player id and a position.
    pub open spec fn wf(&self) -> bool {
        &&& forall|c: u64|
            #[trigger] self.entities().contains_key(c) ==> {
                let b = self.entities()[c];
                &&& self.world_view().contains_key(b)
                &&& row_player(self.world_view()[b]) == Some(c)
                &&& row_position(self.world_view()[b]) is Some
                &&& row_movable(self.world_view()[b])
            }
        &&& forall|c1: u64, c2: u64|
            #[trigger] self.entities().contains_key(c1) && #[trigger] self.entities().contains_key(
                c2,
            ) && c1 != c2 ==> self.entities()[c1] != self.entities()[c2]
    }

    pub fn new(opts: GameOptions) -> (r: Game)
        ensures
            r.wf(),
            r.world_view() == Map::<u64, EntityRow>::empty(),
            r.entities() == Map::<u64, u64>::empty(),
            r.spec_tick_rate() == opts.tick_rate,
    {
        Game { opts, world: world_new(), conn_entity_map: HashMap::new() }
    }

    /// The number of ticks per second.
    pub fn tick_rate(&self) -> (r: u8)
        ensures
            r == self.spec_tick_rate(),
    {
        self.opts.tick_rate
    }

    /// Whether moving the connection's entity by `(dx, dy)` keeps its position
    /// in range.
    pub fn can_translate(&self, conn_id: u64, dx: i8, dy: i8) -> (r: bool)
        ensures
            r == translate_fits(self.world_view(), self.entities(), conn_id, dx as int, dy as int),
    {
        match self.conn_entity_map.get(&conn_id) {
            None => true,
            Some(b) => {
                if !world_is_movable(&self.world, *b) {
                    true
                } else {
                    match world_position(&self.world, *b) {
                        None => true,
                        Some(p) => {
                            let x = p.x as i64 + dx as i64;
                            let y = p.y as i64 + dy as i64;
                            -2147483648i64 <= x && x <= 2147483647i64 && -2147483648i64 <= y && y
                                <= 2147483647i64
                        },
                    }
                }
            },
        }
    }

    /// Whether handling the message keeps every number in range.
    pub fn can_handle(&self, msg: &GameMessage) -> (r: bool)
        ensures
            r == message_fits(self.world_view(), self.entities(), msg@),
    {
        match msg {
            GameMessage::PacketFromClient(c, Packet::Translate(d)) => {
                let (dx, dy): (i8, i8) = match d {
                    Direction::Up => (0, 1),
                    Direction::Down => (0, -1),
                    Direction::Right => (1, 0),
                    Direction::Left => (-1, 0),
                };
                self.can_translate(*c, dx, dy)
            },
            _ => true,
        }
    }

    /// Moves the connection's entity by `(dx, dy)`, if it is movable, and returns
    /// the broadcast of its new position.
    pub fn translate_player(&mut self, conn_id: u64, dx: i8, dy: i8) -> (out: Vec<GameMessage>)
        requires
            old(self).wf(),
            translate_fits(old(self).world_view(), old(self).entities(), conn_id, dx as int, dy as int),
        ensures
            final(self).wf(),
            final(self).entities() == old(self).entities(),
            final(self).spec_tick_rate() == old(self).spec_tick_rate(),
            translate_post(
                old(self).world_view(),
                old(self).entities(),
                conn_id,
                dx as int,
                dy as int,
                final(self).world_view(),
                out@.map_values(|m: GameMessage| m@),
            ),
    {
        let ghost w0 = self.world_view();
        let mut out: Vec<GameMessage> = Vec::new();
        if let Some(entity) = self.conn_entity_map.get(&conn_id) {
            let entity = *entity;
            if world_is_movable(&self.world, entity) {
                if let Some(pos) = world_position(&self.world, entity) {
                    let new_pos = Position { x: pos.x + dx as i32, y: pos.y + dy as i32 };
                    world_set_position(&mut self.world, entity, new_pos);
                    let eid = entity_id(entity);
                    out.push(
                        GameMessage::Broadcast(
                            Packet::ComponentUpdate(eid, Component::Position(new_pos)),
                        ),
                    );
                    proof {
                        let w1 = self.world_view();
                        assert forall|c: u64| #[trigger] self.entities().contains_key(c) implies {
                            let b = self.entities()[c];
                            &&& w1.contains_key(b)
                            &&& row_player(w1[b]) == Some(c)
                            &&& row_position(w1[b]) is Some
                            &&& row_movable(w1[b])
                        } by {
                            let b = self.entities()[c];
                            assert(w0.contains_key(b));
                        }
                    }
                }
                // an entity without a position stays as it is

            }
            // an entity that is not movable stays as it is

        }
        // an unknown connection moves nothing

        assert(out@.map_values(|m: GameMessage| m@) =~= if can_move(
            w0,
            self.entities(),
            conn_id,
        ) {
            let b = self.entities()[conn_id];
            let (x, y) = row_position(w0[b])->0;
            seq![
                GameMessageView::Broadcast(
                    NetPacketView::ComponentUpdate(
                        hecs_entity_id(b),
                        Component::Position(Position { x: (x + dx) as i32, y: (y + dy) as i32 }),
                    ),
                ),
            ]
        } else {
            Seq::<GameMessageView>::empty()
        });
        out
    }

    /// Handles one message from the hub.
    pub fn handle_message(&mut self, msg: GameMessage) -> (out: Vec<GameMessage>)
        requires
            old(self).wf(),
            message_fits(old(self).world_view(), old(self).entities(), msg@),
        ensures
            final(self).wf(),
            final(self).spec_tick_rate() == old(self).spec_tick_rate(),
            message_post(
                old(self).world_view(),
                old(self).entities(),
                msg@,
                final(self).world_view(),
                final(self).entities(),
                out@.map_values(|m: GameMessage| m@),
            ),
    {
        let ghost w0 = self.world_view();
        let ghost m0 = self.entities();
        match msg {
            GameMessage::PacketFromClient(conn_id, packet) => {
                match packet {
                    Packet::Translate(dir) => {
                        let (dx, dy): (i8, i8) = match dir {
                            Direction::Up => (0, 1),
                            Direction::Down => (0, -1),
                            Direction::Right => (1, 0),
                            Direction::Left => (-1, 0),
                        };
                        self.translate_player(conn_id, dx, dy)
                    },
                    _ => {
                        let out: Vec<GameMessage> = Vec::new();
                        assert(out@.map_values(|m: GameMessage| m@)
                            =~= Seq::<GameMessageView>::empty());
                        out
                    },
                }
            },
            GameMessage::ClientDisconnected(conn_id) => {
                if let Some(entity) = self.conn_entity_map.remove(&conn_id) {
                    world_despawn(&mut self.world, entity);
                    proof {
                        let w1 = self.world_view();
                        assert forall|c: u64| #[trigger] self.entities().contains_key(c) implies {
                            let b = self.entities()[c];
                            &&& w1.contains_key(b)
                            &&& row_player(w1[b]) == Some(c)
                            &&& row_position(w1[b]) is Some
                            &&& row_movable(w1[b])
                        } by {
                            assert(m0.contains_key(c) && m0.contains_key(conn_id) && c != conn_id);
                        }
                    }
                }
                let out: Vec<GameMessage> = Vec::new();
                assert(out@.map_values(|m: GameMessage| m@) =~= Seq::<GameMessageView>::empty());
                out
            },
            GameMessage::ClientConnected(conn_id) => {
                let entity = world_spawn_movable_player(
                    &mut self.world,
                    Player { id: conn_id },
                    Position { x: 0, y: 0 },
                );
                self.conn_entity_map.insert(conn_id, entity);
                proof {
                    let w1 = self.world_view();
                    assert forall|c: u64| #[trigger] self.entities().contains_key(c) implies {
                        let b = self.entities()[c];
                        &&& w1.contains_key(b)
                        &&& row_player(w1[b]) == Some(c)
                        &&& row_position(w1[b]) is Some
                        &&& row_movable(w1[b])
                    } by {
                        if c != conn_id {
                            assert(m0.contains_key(c));
                            assert(w0.contains_key(m0[c]));
                        }
                    }
                    assert forall|c1: u64, c2: u64|
                        #[trigger] self.entities().contains_key(c1)
                            && #[trigger] self.entities().contains_key(c2) && c1 != c2
                        implies self.entities()[c1] != self.entities()[c2] by {
                        if c1 == conn_id {
                            assert(w0.contains_key(m0[c2]));
                        } else if c2 == conn_id {
                            assert(w0.contains_key(m0[c1]));
                        }
                    }
                }
                let eid = entity_id(entity);
                let out = vec![
                    GameMessage::Broadcast(
                        Packet::ComponentUpdate(eid, Component::Position(Position { x: 0, y: 0 })),
                    ),
                    GameMessage::Broadcast(
                        Packet::ComponentUpdate(eid, Component::Player(Player { id: conn_id })),
                    ),
                ];
                assert(out@.map_values(|m: GameMessage| m@) =~= seq![
                    GameMessageView::Broadcast(
                        NetPacketView::ComponentUpdate(
                            hecs_entity_id(entity),
                            Component::Position(Position { x: 0, y: 0 }),
                        ),
                    ),
                    GameMessageView::Broadcast(
                        NetPacketView::ComponentUpdate(
                            hecs_entity_id(entity),
                            Component::Player(Player { id: conn_id }),
                        ),
                    ),
                ]);
                out
            },
            _ => {
                // Unhandled message
                let out: Vec<GameMessage> = Vec::new();
                assert(out@.map_values(|m: GameMessage| m@) =~= Seq::<GameMessageView>::empty());
                out
            },
        }
    }

    /// Moves the entity as [`Game::translate_player`] does when that keeps its
    /// position in range; otherwise changes nothing and returns `None`.
    pub fn try_translate_player(&mut self, conn_id: u64, dx: i8, dy: i8) -> (r: Option<
        Vec<GameMessage>,
    >)
        requires
            old(self).wf(),
        ensures
            final(self).wf(),
            final(self).entities() == old(self).entities(),
            final(self).spec_tick_rate() == old(self).spec_tick_rate(),
            match r {
                Some(out) => translate_fits(
                    old(self).world_view(),
                    old(self).entities(),
                    conn_id,
                    dx as int,
                    dy as int,
                ) && translate_post(
                    old(self).world_view(),
                    old(self).entities(),
                    conn_id,
                    dx as int,
                    dy as int,
                    final(self).world_view(),
                    out@.map_values(|m: GameMessage| m@),
                ),
                None => !translate_fits(
                    old(self).world_view(),
                    old(self).entities(),
                    conn_id,
                    dx as int,
                    dy as int,
                ) && final(self).world_view() == old(self).world_view(),
            },
    {
        if self.can_translate(conn_id, dx, dy) {
            Some(self.translate_player(conn_id, dx, dy))
        } else {
            None
        }
    }

    /// Handles the message as [`Game::handle_message`] does when that keeps
    /// every number in range; otherwise changes nothing and returns `None`.
    pub fn try_handle_message(&mut self, msg: GameMessage) -> (r: Option<Vec<GameMessage>>)
        requires
            old(self).wf(),
        ensures
            final(self).wf(),
            final(self).spec_tick_rate() == old(self).spec_tick_rate(),
            match r {
                Some(out) => message_fits(old(self).world_view(), old(self).entities(), msg@)
                    && message_post(
                    old(self).world_view(),
                    old(self).entities(),
                    msg@,
                    final(self).world_view(),
                    final(self).entities(),
                    out@.map_values(|m: GameMessage| m@),
                ),
                None => !message_fits(old(self).world_view(), old(self).entities(), msg@)
                    && final(self).world_view() == old(self).world_view() && final(self).entities()
                    == old(self).entities(),
            },
    {
        if self.can_handle(&msg) {
            Some(self.handle_message(msg))
        } else {
            None
        }
    }
}

/// A player who connects and then disconnects leaves the world and the table of
/// players as they were before.
pub proof fn lemma_connect_then_disconnect(
    world: Map<u64, EntityRow>,
    map: Map<u64, u64>,
    c: u64,
    world1: Map<u64, EntityRow>,
    map1: Map<u64, u64>,
    out1: Seq<GameMessageView>,
    world2: Map<u64, EntityRow>,
    map2: Map<u64, u64>,
    out2: Seq<GameMessageView>,
)
    requires
        !map.contains_key(c),
        message_post(world, map, GameMessageView::ClientConnected(c), world1, map1, out1),
        message_post(world1, map1, GameMessageView::ClientDisconnected(c), world2, map2, out2),
    ensures
        world2 == world,
        map2 == map,
{
    assert(world2 =~= world);
    assert(map2 =~= map);
}

/// A move followed by the opposite move puts the player's entity back where
/// it was.
pub proof fn lemma_move_back_and_forth(
    world: Map<u64, EntityRow>,
    map: Map<u64, u64>,
    c: u64,
    dx: int,
    dy: int,
    world1: Map<u64, EntityRow>,
    out1: Seq<GameMessageView>,
    world2: Map<u64, EntityRow>,
    out2: Seq<GameMessageView>,
)
    requires
        can_move(world, map, c),
        translate_fits(world, map, c, dx, dy),
        translate_post(world, map, c, dx, dy, world1, out1),
        translate_post(world1, map, c, -dx, -dy, world2, out2),
    ensures
        world2 == world,
{
    let b = map[c];
    assert(world2[b] == world[b]);
    assert(world2 =~= world);
}

/// A move request moves a movable player's entity one step at once: Up
/// raises `y` by one, Down lowers it, Right raises `x`, Left lowers it. The
/// entity keeps its other components, no other entity changes, and the new
/// position is broadcast under the entity's id.
pub proof fn lemma_translate_moves_one_step(
    world: Map<u64, EntityRow>,
    map: Map<u64, u64>,
    c: u64,
    d: Direction,
    world2: Map<u64, EntityRow>,
    map2: Map<u64, u64>,
    out: Seq<GameMessageView>,
)
    requires
        can_move(world, map, c),
        message_fits(world, map, GameMessageView::PacketFromClient(c, NetPacketView::Translate(d))),
        message_post(
            world,
            map,
            GameMessageView::PacketFromClient(c, NetPacketView::Translate(d)),
            world2,
            map2,
            out,
        ),
    ensures
        ({
            let b = map[c];
            let (x, y) = row_position(world[b])->0;
            let (nx, ny) = if d == Direction::Up {
                (x as int, y + 1)
            } else if d == Direction::Down {
                (x as int, y - 1)
            } else if d == Direction::Right {
                (x + 1, y as int)
            } else {
                (x - 1, y as int)
            };
            let p = Position { x: nx as i32, y: ny as i32 };
            &&& p.x == nx && p.y == ny
            &&& map2 == map
            &&& world2 == world.insert(b, (world[b].0, Some((p.x, p.y)), world[b].2, world[b].3))
            &&& out == seq![
                GameMessageView::Broadcast(
                    NetPacketView::ComponentUpdate(hecs_entity_id(b), Component::Position(p)),
                ),
            ]
        }),
{
}

/// Moving a player by a step and then by the opposite step puts its entity
/// back where it was.
pub proof fn lemma_opposite_steps_cancel(
    world: Map<u64, EntityRow>,
    map: Map<u64, u64>,
    c: u64,
    d: Direction,
    e: Direction,
    world1: Map<u64, EntityRow>,
    map1: Map<u64, u64>,
    out1: Seq<GameMessageView>,
    world2: Map<u64, EntityRow>,
    map2: Map<u64, u64>,
    out2: Seq<GameMessageView>,
)
    requires
        can_move(world, map, c),
        (d == Direction::Up && e == Direction::Down) || (d == Direction::Down && e == Direction::Up)
            || (d == Direction::Left && e == Direction::Right) || (d == Direction::Right && e
            == Direction::Left),
        message_fits(world, map, GameMessageView::PacketFromClient(c, NetPacketView::Translate(d))),
        message_post(
            world,
            map,
            GameMessageView::PacketFromClient(c, NetPacketView::Translate(d)),
            world1,
            map1,
            out1,
        ),
        message_fits(world1, map1, GameMessageView::PacketFromClient(c, NetPacketView::Translate(e))),
        message_post(
            world1,
            map1,
            GameMessageView::PacketFromClient(c, NetPacketView::Translate(e)),
            world2,
            map2,
            out2,
        ),
    ensures
        world2 == world,
        map2 == map,
{
    lemma_translate_moves_one_step(world, map, c, d, world1, map1, out1);
    assert(can_move(world1, map1, c));
    lemma_translate_moves_one_step(world1, map1, c, e, world2, map2, out2);
    let b = map[c];
    assert(world2[b] == world[b]);
    assert(world2 =~= world);
}

} // verus!
