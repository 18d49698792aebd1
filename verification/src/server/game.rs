//! The game: the world of entities, which connection plays which entity, and
//! how messages from the hub change them.
//!
//! The game does no I/O itself: each step returns the messages it has for the
//! hub, and the caller sends them.
use vstd::prelude::*;

use std::collections::HashMap;

use hecs::World;

use crate::ecs::{
    EntityRow, world_contents, hecs_entity_id, row_player, row_position, row_velocity, world_new,
    world_spawn_player, world_despawn, world_players, world_positions, entity_id,
};
use crate::server::messages::{GameMessage, HubMessage, HubMessageView};
use crate::server::systems::{
    movement_system, set_entity_velocity, movement_fits_now, velocity_fits_now, velocity_fits, pushed, movement_fits, moved,
    announces_moves, fits_i32, direction_delta, row_moves,
};
use crate::shared::components::{Player, Position, Velocity};
use crate::shared::packets::{Component, Direction, Packet, PacketView};
use crate::shared::WorldSnapshot;

verus! {

broadcast use vstd::std_specs::hash::group_hash_axioms;

pub struct GameOptions {
    pub tick_rate: u8,
}

/// The snapshot lists each player and each position of the world once, by
/// entity id, in some order.
pub open spec fn snapshot_of(
    world: Map<u64, EntityRow>,
    players: Seq<(u32, Player)>,
    positions: Seq<(u32, Position)>,
) -> bool {
    &&& exists|bs: Seq<u64>|
        {
            &&& bs.no_duplicates()
            &&& bs.to_set() == world.dom().filter(|b: u64| row_player(world[b]) is Some)
            &&& players == bs.map_values(
                |b: u64| (hecs_entity_id(b), Player { id: row_player(world[b])->0 }),
            )
        }
    &&& exists|bs: Seq<u64>|
        {
            &&& bs.no_duplicates()
            &&& bs.to_set() == world.dom().filter(|b: u64| row_position(world[b]) is Some)
            &&& positions == bs.map_values(
                |b: u64|
                    (
                        hecs_entity_id(b),
                        Position { x: (row_position(world[b])->0).0, y: (row_position(world[b])->0).1 },
                    ),
            )
        }
}

/// The components a player's entity starts with.
pub open spec fn new_player_row(conn_id: u64) -> EntityRow {
    (Some(conn_id), Some((0i32, 0i32)), Some((0i32, 0i32)), false)
}

/// Whether handling the message keeps every number in range.
pub open spec fn dispatch_fits(world: Map<u64, EntityRow>, map: Map<u64, u64>, m: HubMessageView) -> bool {
    match m {
        HubMessageView::PacketFromClient(c, PacketView::Translate(d)) => map.contains_key(c)
            ==> velocity_fits(world, map[c], d),
        _ => true,
    }
}

/// What handling a message from the hub does: from the world and the
/// connections' entities before, to those after and the messages for the hub.
pub open spec fn dispatch_post(
    world: Map<u64, EntityRow>,
    map: Map<u64, u64>,
    m: HubMessageView,
    world2: Map<u64, EntityRow>,
    map2: Map<u64, u64>,
    out: Seq<HubMessageView>,
) -> bool {
    match m {
        HubMessageView::PacketFromClient(c, PacketView::Translate(d)) => {
            &&& world2 == if map.contains_key(c) {
                pushed(world, map[c], d)
            } else {
                world
            }
            &&& map2 == map
            &&& out == Seq::<HubMessageView>::empty()
        },
        HubMessageView::PlayerLeft(c) => {
            &&& world2 == if map.contains_key(c) {
                world.remove(map[c])
            } else {
                world
            }
            &&& map2 == map.remove(c)
            &&& out == Seq::<HubMessageView>::empty()
        },
        HubMessageView::PlayerJoined(c, _) => {
            let b = map2[c];
            &&& !world.contains_key(b)
            &&& world2 == world.insert(b, new_player_row(c))
            &&& map2 == map.insert(c, b)
            &&& out.len() == 3
            &&& out[0] matches HubMessageView::SendTo(to, PacketView::WorldSnapshot(pl, po)) && to
                == c && snapshot_of(world2, pl, po)
            &&& out[1] == HubMessageView::Broadcast(
                PacketView::ComponentUpdate(
                    hecs_entity_id(b),
                    Component::Position(Position { x: 0, y: 0 }),
                ),
            )
            &&& out[2] == HubMessageView::Broadcast(
                PacketView::ComponentUpdate(hecs_entity_id(b), Component::Player(Player { id: c })),
            )
        },
        _ => {
            &&& world2 == world
            &&& map2 == map
            &&& out == Seq::<HubMessageView>::empty()
        },
    }
}

/// The broadcast that announces a component update to every connection.
pub open spec fn update_broadcast(u: GameMessage) -> HubMessageView {
    match u {
        GameMessage::ComponentUpdate(e, c) => HubMessageView::Broadcast(
            PacketView::ComponentUpdate(e, c),
        ),
    }
}

/// The messages `msgs` handled one after another: `ws` and `ms` are the worlds
/// and the tables before each message and after the last, and `outs` what each
/// message gave the hub.
pub open spec fn handled(
    world: Map<u64, EntityRow>,
    map: Map<u64, u64>,
    msgs: Seq<HubMessageView>,
    ws: Seq<Map<u64, EntityRow>>,
    ms: Seq<Map<u64, u64>>,
    outs: Seq<Seq<HubMessageView>>,
) -> bool {
    &&& ws.len() == msgs.len() + 1
    &&& ms.len() == msgs.len() + 1
    &&& outs.len() == msgs.len()
    &&& ws[0] == world
    &&& ms[0] == map
    &&& forall|i: int| 0 <= i < msgs.len() ==> #[trigger] step_ok(msgs, ws, ms, outs, i)
}

/// Message `i` fits the state before it and leads to the state after it.
pub open spec fn step_ok(
    msgs: Seq<HubMessageView>,
    ws: Seq<Map<u64, EntityRow>>,
    ms: Seq<Map<u64, u64>>,
    outs: Seq<Seq<HubMessageView>>,
    i: int,
) -> bool {
    &&& dispatch_fits(ws[i], ms[i], msgs[i])
    &&& dispatch_post(ws[i], ms[i], msgs[i], ws[i + 1], ms[i + 1], outs[i])
}

/// What one tick does: each incoming message is handled in order, from the
/// state the one before left, then every entity moves once; the hub is sent
/// what the messages gave, in order, then the movement's broadcasts.
pub open spec fn tick_post(
    world: Map<u64, EntityRow>,
    map: Map<u64, u64>,
    msgs: Seq<HubMessageView>,
    world2: Map<u64, EntityRow>,
    map2: Map<u64, u64>,
    out: Seq<HubMessageView>,
) -> bool {
    exists|ws: Seq<Map<u64, EntityRow>>, ms: Seq<Map<u64, u64>>, outs: Seq<Seq<HubMessageView>>|
        #![trigger handled(world, map, msgs, ws, ms, outs)]
        {
            &&& handled(world, map, msgs, ws, ms, outs)
            &&& movement_fits(ws.last())
            &&& world2 == moved(ws.last())
            &&& map2 == ms.last()
            &&& exists|updates: Seq<GameMessage>|
                announces_moves(ws.last(), updates) && out == outs.flatten() + updates.map_values(
                    |u: GameMessage| update_broadcast(u),
                )
        }
}

/// A tick stops where a step would take a number out of range: the first `k`
/// messages are handled, and then the next message, or the movement when
/// there is no next message, does not fit. The game is left as those `k`
/// messages left it (`world2`, `map2`).
pub open spec fn tick_refused(
    world: Map<u64, EntityRow>,
    map: Map<u64, u64>,
    msgs: Seq<HubMessageView>,
    world2: Map<u64, EntityRow>,
    map2: Map<u64, u64>,
) -> bool {
    exists|ws: Seq<Map<u64, EntityRow>>, ms: Seq<Map<u64, u64>>, outs: Seq<Seq<HubMessageView>>, k: int|
        #![trigger handled(world, map, msgs.take(k), ws, ms, outs)]
        {
            &&& 0 <= k <= msgs.len()
            &&& handled(world, map, msgs.take(k), ws, ms, outs)
            &&& world2 == ws.last()
            &&& map2 == ms.last()
            &&& if k < msgs.len() {
                !dispatch_fits(ws.last(), ms.last(), msgs[k])
            } else {
                !movement_fits(ws.last())
            }
        }
}

pub struct Game {
    opts: GameOptions,
    world: World,
    /// Mapping of player connection_id -> in-game entity (the bits of its handle)
    conn_entity_map: HashMap<u64, u64>,
}

impl Game {
    /// What the world holds.
    pub closed spec fn world_view(&self) -> Map<u64, EntityRow> {
        world_contents(self.world)
    }

    /// Which entity each connection plays.
    pub closed spec fn entities(&self) -> Map<u64, u64> {
        self.conn_entity_map@
    }

    pub closed spec fn spec_tick_rate(&self) -> u8 {
        self.opts.tick_rate
    }

    /// Each connection plays a live entity of its own, which carries its player
    /// id, a position and a velocity.
    pub open spec fn wf(&self) -> bool {
        &&& forall|c: u64|
            #[trigger] self.entities().contains_key(c) ==> {
                let b = self.entities()[c];
                &&& self.world_view().contains_key(b)
                &&& row_player(self.world_view()[b]) == Some(c)
                &&& row_position(self.world_view()[b]) is Some
                &&& row_velocity(self.world_view()[b]) is Some
            }
        &&& forall|c1: u64, c2: u64|
            #[trigger] self.entities().contains_key(c1) && #[trigger] self.entities().contains_key(
                c2,
            ) && c1 != c2 ==> self.entities()[c1] != self.entities()[c2]
    }

    pub fn new(opts: GameOptions) -> (r: Game)
        ensures
            r.wf(),
            r.world_view() == Map::<u64, EntityRow>::empty(),
            r.entities() == Map::<u64, u64>::empty(),
            r.spec_tick_rate() == opts.tick_rate,
    {
        Game { opts, world: world_new(), conn_entity_map: HashMap::new() }
    }

    /// The number of ticks per second.
    pub fn tick_rate(&self) -> (r: u8)
        ensures
            r == self.spec_tick_rate(),
    {
        self.opts.tick_rate
    }

    /// Whether handling the message keeps every number in range.
    pub fn can_dispatch(&self, msg: &HubMessage) -> (r: bool)
        ensures
            r == dispatch_fits(self.world_view(), self.entities(), msg@),
    {
        match msg {
            HubMessage::PacketFromClient(c, Packet::Translate(d)) => {
                match self.conn_entity_map.get(c) {
                    None => true,
                    Some(b) => velocity_fits_now(&self.world, *b, *d),
                }
            },
            _ => true,
        }
    }

    /// Whether moving every entity this tick keeps every position in range.
    pub fn can_run_systems(&self) -> (r: bool)
        ensures
            r == movement_fits(self.world_view()),
    {
        movement_fits_now(&self.world)
    }

    /// Handles one message from the hub.
    pub fn dispatch_hub_message(&mut self, msg: HubMessage) -> (out: Vec<HubMessage>)
        requires
            old(self).wf(),
            dispatch_fits(old(self).world_view(), old(self).entities(), msg@),
        ensures
            final(self).wf(),
            final(self).spec_tick_rate() == old(self).spec_tick_rate(),
            dispatch_post(
                old(self).world_view(),
                old(self).entities(),
                msg@,
                final(self).world_view(),
                final(self).entities(),
                out@.map_values(|m: HubMessage| m@),
            ),
    {
        let ghost w0 = self.world_view();
        let ghost m0 = self.entities();
        let ghost mv = msg@;
        match msg {
            HubMessage::PacketFromClient(conn_id, packet) => {
                match packet {
                    Packet::Translate(dir) => {
                        if let Some(entity) = self.conn_entity_map.get(&conn_id) {
                            let entity = *entity;
                            set_entity_velocity(&mut self.world, entity, dir);
                            proof {
                                let w1 = self.world_view();
                                assert forall|c: u64| #[trigger]
                                    self.entities().contains_key(c) implies {
                                    let b = self.entities()[c];
                                    &&& w1.contains_key(b)
                                    &&& row_player(w1[b]) == Some(c)
                                    &&& row_position(w1[b]) is Some
                                    &&& row_velocity(w1[b]) is Some
                                } by {
                                    let b = self.entities()[c];
                                    assert(w0.contains_key(b));
                                }
                            }
                        }
                    },
                    _ => {},
                }
                let out: Vec<HubMessage> = Vec::new();
                assert(out@.map_values(|m: HubMessage| m@) =~= Seq::<HubMessageView>::empty());
                out
            },
            HubMessage::PlayerLeft(conn_id) => {
                if let Some(entity) = self.conn_entity_map.remove(&conn_id) {
                    world_despawn(&mut self.world, entity);
                    proof {
                        let w1 = self.world_view();
                        assert forall|c: u64| #[trigger]
                            self.entities().contains_key(c) implies {
                            let b = self.entities()[c];
                            &&& w1.contains_key(b)
                            &&& row_player(w1[b]) == Some(c)
                            &&& row_position(w1[b]) is Some
                            &&& row_velocity(w1[b]) is Some
                        } by {
                            assert(m0.contains_key(c) && m0.contains_key(conn_id) && c != conn_id);
                        }
                    }
                }
                let out: Vec<HubMessage> = Vec::new();
                assert(out@.map_values(|m: HubMessage| m@) =~= Seq::<HubMessageView>::empty());
                out
            },
            HubMessage::PlayerJoined(conn_id, _username) => {
                let entity = world_spawn_player(
                    &mut self.world,
                    Player { id: conn_id },
                    Velocity { dx: 0, dy: 0 },
                    Position { x: 0, y: 0 },
                );
                self.conn_entity_map.insert(conn_id, entity);
                proof {
                    let w1 = self.world_view();
                    assert forall|c: u64| #[trigger] self.entities().contains_key(c) implies {
                        let b = self.entities()[c];
                        &&& w1.contains_key(b)
                        &&& row_player(w1[b]) == Some(c)
                        &&& row_position(w1[b]) is Some
                        &&& row_velocity(w1[b]) is Some
                    } by {
                        if c != conn_id {
                            assert(m0.contains_key(c));
                            assert(w0.contains_key(m0[c]));
                        }
                    }
                    assert forall|c1: u64, c2: u64|
                        #[trigger] self.entities().contains_key(c1)
                            && #[trigger] self.entities().contains_key(c2) && c1 != c2
                        implies self.entities()[c1] != self.entities()[c2] by {
                        if c1 == conn_id {
                            assert(w0.contains_key(m0[c2]));
                        } else if c2 == conn_id {
                            assert(w0.contains_key(m0[c1]));
                        }
                    }
                }
                // send a current world snapshot to the new connection
                let snapshot = Self::create_world_snapshot(&self.world);
                let eid = entity_id(entity);
                let out = vec![
                    HubMessage::SendTo(conn_id, Packet::WorldSnapshot(snapshot)),
                    // broadcast the new player to everyone
                    HubMessage::Broadcast(
                        Packet::ComponentUpdate(eid, Component::Position(Position { x: 0, y: 0 })),
                    ),
                    HubMessage::Broadcast(
                        Packet::ComponentUpdate(eid, Component::Player(Player { id: conn_id })),
                    ),
                ];
                out
            },
            _ => {
                // Unhandled message
                let out: Vec<HubMessage> = Vec::new();
                assert(out@.map_values(|m: HubMessage| m@) =~= Seq::<HubMessageView>::empty());
                out
            },
        }
    }

    /// Runs the systems for one tick and returns the broadcasts they ask for.
    pub fn run_systems(&mut self) -> (out: Vec<HubMessage>)
        requires
            old(self).wf(),
            movement_fits(old(self).world_view()),
        ensures
            final(self).wf(),
            final(self).spec_tick_rate() == old(self).spec_tick_rate(),
            final(self).entities() == old(self).entities(),
            final(self).world_view() == moved(old(self).world_view()),
            exists|updates: Seq<GameMessage>|
                announces_moves(old(self).world_view(), updates) && out@.map_values(
                    |m: HubMessage| m@,
                ) == updates.map_values(|u: GameMessage| update_broadcast(u)),
    {
        let ghost w0 = self.world_view();
        let updates = movement_system(&mut self.world);
        proof {
            let w1 = self.world_view();
            assert forall|c: u64| #[trigger] self.entities().contains_key(c) implies {
                let b = self.entities()[c];
                &&& w1.contains_key(b)
                &&& row_player(w1[b]) == Some(c)
                &&& row_position(w1[b]) is Some
                &&& row_velocity(w1[b]) is Some
            } by {
                let b = self.entities()[c];
                assert(w0.contains_key(b));
            }
        }
        // broadcast all updated positions
        let mut out: Vec<HubMessage> = Vec::new();
        let mut i: usize = 0;
        while i < updates.len()
            invariant
                0 <= i <= updates.len(),
                out@.len() == i,
                forall|j: int|
                    0 <= j < i ==> (#[trigger] out@[j])@ == update_broadcast(updates@[j]),
            decreases updates.len() - i,
        {
            match updates[i] {
                GameMessage::ComponentUpdate(eid, comp) => {
                    out.push(HubMessage::Broadcast(Packet::ComponentUpdate(eid, comp)));
                },
            }
            i = i + 1;
        }
        assert(out@.map_values(|m: HubMessage| m@) =~= updates@.map_values(
            |u: GameMessage| update_broadcast(u),
        ));
        out
    }

    /// Handles the message as [`Game::dispatch_hub_message`] does when that keeps
    /// every number in range; otherwise changes nothing and returns `None`.
    pub fn try_dispatch_hub_message(&mut self, msg: HubMessage) -> (r: Option<Vec<HubMessage>>)
        requires
            old(self).wf(),
        ensures
            final(self).wf(),
            final(self).spec_tick_rate() == old(self).spec_tick_rate(),
            match r {
                Some(out) => dispatch_fits(old(self).world_view(), old(self).entities(), msg@)
                    && dispatch_post(
                    old(self).world_view(),
                    old(self).entities(),
                    msg@,
                    final(self).world_view(),
                    final(self).entities(),
                    out@.map_values(|m: HubMessage| m@),
                ),
                None => !dispatch_fits(old(self).world_view(), old(self).entities(), msg@)
                    && final(self).world_view() == old(self).world_view() && final(self).entities()
                    == old(self).entities(),
            },
    {
        if self.can_dispatch(&msg) {
            Some(self.dispatch_hub_message(msg))
        } else {
            None
        }
    }

    /// Runs the systems as [`Game::run_systems`] does when that keeps every
    /// position in range; otherwise changes nothing and returns `None`.
    pub fn try_run_systems(&mut self) -> (r: Option<Vec<HubMessage>>)
        requires
            old(self).wf(),
        ensures
            final(self).wf(),
            final(self).spec_tick_rate() == old(self).spec_tick_rate(),
            final(self).entities() == old(self).entities(),
            match r {
                Some(out) => movement_fits(old(self).world_view()) && final(self).world_view()
                    == moved(old(self).world_view()) && exists|updates: Seq<GameMessage>|
                    announces_moves(old(self).world_view(), updates) && out@.map_values(
                        |m: HubMessage| m@,
                    ) == updates.map_values(|u: GameMessage| update_broadcast(u)),
                None => !movement_fits(old(self).world_view()) && final(self).world_view()
                    == old(self).world_view(),
            },
    {
        if self.can_run_systems() {
            Some(self.run_systems())
        } else {
            None
        }
    }

    /// One tick: handles the incoming messages in order, then runs the
    /// systems, and returns everything the hub is to be sent. Returns `None`
    /// at the first step that would take a number out of range.
    pub fn tick(&mut self, incoming: Vec<HubMessage>) -> (r: Option<Vec<HubMessage>>)
        requires
            old(self).wf(),
        ensures
            final(self).wf(),
            final(self).spec_tick_rate() == old(self).spec_tick_rate(),
            match r {
                Some(out) => tick_post(
                    old(self).world_view(),
                    old(self).entities(),
                    incoming@.map_values(|m: HubMessage| m@),
                    final(self).world_view(),
                    final(self).entities(),
                    out@.map_values(|m: HubMessage| m@),
                ),
                None => tick_refused(
                    old(self).world_view(),
                    old(self).entities(),
                    incoming@.map_values(|m: HubMessage| m@),
                    final(self).world_view(),
                    final(self).entities(),
                ),
            },
    {
        let ghost msgs = incoming@.map_values(|m: HubMessage| m@);
        let ghost w0 = self.world_view();
        let ghost m0 = self.entities();
        let ghost mut ws: Seq<Map<u64, EntityRow>> = seq![w0];
        let ghost mut ms: Seq<Map<u64, u64>> = seq![m0];
        let ghost mut outs: Seq<Seq<HubMessageView>> = seq![];
        let ghost mut k: int = 0;
        let mut pending = incoming;
        let mut out: Vec<HubMessage> = Vec::new();
        assert(msgs.take(0) =~= Seq::<HubMessageView>::empty());
        assert(msgs.skip(0) =~= msgs);
        assert(outs.flatten() =~= Seq::<HubMessageView>::empty());
        assert(out@.map_values(|m: HubMessage| m@) =~= outs.flatten());
        while pending.len() > 0
            invariant
                self.wf(),
                self.spec_tick_rate() == old(self).spec_tick_rate(),
                w0 == old(self).world_view(),
                m0 == old(self).entities(),
                msgs == incoming@.map_values(|m: HubMessage| m@),
                0 <= k <= msgs.len(),
                k + pending@.len() == msgs.len(),
                pending@.map_values(|m: HubMessage| m@) == msgs.skip(k),
                handled(w0, m0, msgs.take(k), ws, ms, outs),
                ws.last() == self.world_view(),
                ms.last() == self.entities(),
                out@.map_values(|m: HubMessage| m@) == outs.flatten(),
            decreases pending.len(),
        {
            let ghost rest = pending@;
            let msg = pending.remove(0);
            assert(msg@ == msgs[k]) by {
                assert(rest.map_values(|m: HubMessage| m@)[0] == msgs.skip(k)[0]);
            }
            assert(pending@.map_values(|m: HubMessage| m@) =~= msgs.skip(k + 1)) by {
                assert(pending@ =~= rest.subrange(1, rest.len() as int));
                assert forall|j: int| 0 <= j < pending@.len() implies #[trigger] pending@[j]@
                    == msgs.skip(k + 1)[j] by {
                    assert(pending@[j] == rest[j + 1]);
                    assert(rest.map_values(|m: HubMessage| m@)[j + 1] == msgs.skip(k)[j + 1]);
                }
            }
            let ghost wpre = self.world_view();
            let ghost mpre = self.entities();
            assert(ws[k] == wpre && ms[k] == mpre);
            match self.try_dispatch_hub_message(msg) {
                None => {
                    proof {
                        assert(handled(w0, m0, msgs.take(k), ws, ms, outs));
                        assert(tick_refused(w0, m0, msgs, self.world_view(), self.entities()));
                    }
                    return None;
                },
                Some(o) => {
                    let ghost ov = o@.map_values(|m: HubMessage| m@);
                    let ghost pre = out@.map_values(|m: HubMessage| m@);
                    let mut o = o;
                    out.append(&mut o);
                    proof {
                        let ws1 = ws.push(self.world_view());
                        let ms1 = ms.push(self.entities());
                        let outs1 = outs.push(ov);
                        let t0 = msgs.take(k);
                        let t1 = msgs.take(k + 1);
                        assert(t1.len() == k + 1);
                        assert(ws1[k] == wpre && ms1[k] == mpre);
                        assert(ws1[k + 1] == self.world_view() && ms1[k + 1] == self.entities());
                        assert(outs1[k] == ov);
                        assert(dispatch_fits(wpre, mpre, msgs[k]));
                        assert(dispatch_post(wpre, mpre, msgs[k], ws1[k + 1], ms1[k + 1], ov));
                        assert forall|i: int| 0 <= i < t1.len() implies #[trigger] step_ok(
                            t1,
                            ws1,
                            ms1,
                            outs1,
                            i,
                        ) by {
                            if i < k {
                                assert(step_ok(t0, ws, ms, outs, i));
                                assert(outs1[i] == outs[i]);
                                assert(t1[i] == t0[i]);
                                assert(ws1[i] == ws[i] && ws1[i + 1] == ws[i + 1]);
                                assert(ms1[i] == ms[i] && ms1[i + 1] == ms[i + 1]);
                            } else {
                                assert(t1[i] == msgs[k]);
                            }
                        }
                        assert(handled(w0, m0, t1, ws1, ms1, outs1));
                        outs.lemma_flatten_push(ov);
                        assert(out@.map_values(|m: HubMessage| m@) =~= pre + ov);
                        ws = ws1;
                        ms = ms1;
                        outs = outs1;
                        k = k + 1;
                    }
                },
            }
        }
        assert(msgs.take(k) =~= msgs);
        match self.try_run_systems() {
            None => {
                proof {
                    assert(tick_refused(w0, m0, msgs, self.world_view(), self.entities()));
                }
                None
            },
            Some(o) => {
                let ghost ov = o@.map_values(|m: HubMessage| m@);
                let ghost pre = out@.map_values(|m: HubMessage| m@);
                let mut o = o;
                out.append(&mut o);
                proof {
                    assert(out@.map_values(|m: HubMessage| m@) =~= pre + ov);
                    assert(handled(w0, m0, msgs, ws, ms, outs));
                    assert(tick_post(
                        w0,
                        m0,
                        msgs,
                        self.world_view(),
                        self.entities(),
                        out@.map_values(|m: HubMessage| m@),
                    ));
                }
                Some(out)
            },
        }
    }

    /// Creates a snapshot of the world to be sent to new connections.
    fn create_world_snapshot(world: &World) -> (ws: WorldSnapshot)
        ensures
            snapshot_of(world_contents(*world), ws.players@, ws.positions@),
    {
        let ghost w = world_contents(*world);
        let found_players = world_players(world);
        let ghost pbs = found_players@.map_values(|e: (u64, Player)| e.0);
        let mut players: Vec<(u32, Player)> = Vec::new();
        let mut i: usize = 0;
        while i < found_players.len()
            invariant
                0 <= i <= found_players.len(),
                w == world_contents(*world),
                pbs == found_players@.map_values(|e: (u64, Player)| e.0),
                forall|j: int|
                    0 <= j < found_players@.len() ==> w.contains_key(#[trigger] found_players@[j].0)
                        && row_player(w[found_players@[j].0]) == Some(found_players@[j].1.id),
                players@.len() == i,
                forall|j: int|
                    0 <= j < i ==> #[trigger] players@[j] == (
                        hecs_entity_id(pbs[j]),
                        Player { id: row_player(w[pbs[j]])->0 },
                    ),
            decreases found_players.len() - i,
        {
            let (b, p) = found_players[i];
            players.push((entity_id(b), p));
            i = i + 1;
        }
        let found_positions = world_positions(world);
        let ghost qbs = found_positions@.map_values(|e: (u64, Position)| e.0);
        let mut positions: Vec<(u32, Position)> = Vec::new();
        let mut i: usize = 0;
        while i < found_positions.len()
            invariant
                0 <= i <= found_positions.len(),
                w == world_contents(*world),
                qbs == found_positions@.map_values(|e: (u64, Position)| e.0),
                forall|j: int|
                    0 <= j < found_positions@.len() ==> w.contains_key(
                        #[trigger] found_positions@[j].0,
                    ) && row_position(w[found_positions@[j].0]) == Some(
                        (found_positions@[j].1.x, found_positions@[j].1.y),
                    ),
                positions@.len() == i,
                forall|j: int|
                    0 <= j < i ==> #[trigger] positions@[j] == (
                        hecs_entity_id(qbs[j]),
                        Position {
                            x: (row_position(w[qbs[j]])->0).0,
                            y: (row_position(w[qbs[j]])->0).1,
                        },
                    ),
            decreases found_positions.len() - i,
        {
            let (b, p) = found_positions[i];
            positions.push((entity_id(b), p));
            i = i + 1;
        }
        proof {
            assert(players@ =~= pbs.map_values(
                |b: u64| (hecs_entity_id(b), Player { id: row_player(w[b])->0 }),
            ));
            assert(pbs.to_set() =~= w.dom().filter(|b: u64| row_player(w[b]) is Some)) by {
                assert forall|b: u64| pbs.to_set().contains(b) implies w.contains_key(b)
                    && row_player(w[b]) is Some by {
                    let j = choose|j: int| 0 <= j < pbs.len() && pbs[j] == b;
                    assert(found_players@[j].0 == b);
                }
                assert forall|b: u64|
                    w.contains_key(b) && row_player(w[b]) is Some implies pbs.to_set().contains(
                    b,
                ) by {
                    let j = choose|j: int| 0 <= j < found_players@.len() && found_players@[j].0 == b;
                    assert(pbs[j] == b);
                }
            }
            assert(positions@ =~= qbs.map_values(
                |b: u64|
                    (
                        hecs_entity_id(b),
                        Position { x: (row_position(w[b])->0).0, y: (row_position(w[b])->0).1 },
                    ),
            ));
            assert(qbs.to_set() =~= w.dom().filter(|b: u64| row_position(w[b]) is Some)) by {
                assert forall|b: u64| qbs.to_set().contains(b) implies w.contains_key(b)
                    && row_position(w[b]) is Some by {
                    let j = choose|j: int| 0 <= j < qbs.len() && qbs[j] == b;
                    assert(found_positions@[j].0 == b);
                }
                assert forall|b: u64|
                    w.contains_key(b) && row_position(w[b]) is Some implies qbs.to_set().contains(
                    b,
                ) by {
                    let j = choose|j: int|
                        0 <= j < found_positions@.len() && found_positions@[j].0 == b;
                    assert(qbs[j] == b);
                }
            }
        }
        WorldSnapshot { players, positions }
    }
}

// ---------------------------------------------------------------------------
// Laws
// ---------------------------------------------------------------------------
/// A player who joins and then leaves leaves the world and the table of
/// players as they were before.
pub proof fn lemma_join_then_leave(
    world: Map<u64, EntityRow>,
    map: Map<u64, u64>,
    c: u64,
    name: Seq<char>,
    world1: Map<u64, EntityRow>,
    map1: Map<u64, u64>,
    out1: Seq<HubMessageView>,
    world2: Map<u64, EntityRow>,
    map2: Map<u64, u64>,
    out2: Seq<HubMessageView>,
)
    requires
        !map.contains_key(c),
        dispatch_post(world, map, HubMessageView::PlayerJoined(c, name), world1, map1, out1),
        dispatch_post(world1, map1, HubMessageView::PlayerLeft(c), world2, map2, out2),
    ensures
        world2 == world,
        map2 == map,
        out2.len() == 0,
{
    assert(world2 =~= world);
    assert(map2 =~= map);
}

/// A move asked by a joined player whose entity stands still at a position
/// moves it one step in that direction on the next tick, and leaves it still.
pub proof fn lemma_translate_then_move(
    world: Map<u64, EntityRow>,
    map: Map<u64, u64>,
    c: u64,
    d: Direction,
    world1: Map<u64, EntityRow>,
    map1: Map<u64, u64>,
    out1: Seq<HubMessageView>,
)
    requires
        map.contains_key(c),
        world.contains_key(map[c]),
        row_velocity(world[map[c]]) == Some((0i32, 0i32)),
        row_position(world[map[c]]) is Some,
        fits_i32((row_position(world[map[c]])->0).0 + direction_delta(d).0),
        fits_i32((row_position(world[map[c]])->0).1 + direction_delta(d).1),
        dispatch_post(
            world,
            map,
            HubMessageView::PacketFromClient(c, PacketView::Translate(d)),
            world1,
            map1,
            out1,
        ),
    ensures
        ({
            let b = map[c];
            let (x, y) = row_position(world[b])->0;
            &&& moved(world1).contains_key(b)
            &&& row_position(moved(world1)[b]) == Some(
                ((x + direction_delta(d).0) as i32, (y + direction_delta(d).1) as i32),
            )
            &&& row_velocity(moved(world1)[b]) == Some((0i32, 0i32))
            &&& row_player(moved(world1)[b]) == row_player(world[b])
        }),
{
}

/// A tick of movement neither creates nor removes entities, and changes no
/// player component.
pub proof fn lemma_movement_keeps_entities(world: Map<u64, EntityRow>)
    ensures
        moved(world).dom() == world.dom(),
        forall|b: u64| #[trigger] world.contains_key(b) ==> row_player(moved(world)[b]) == row_player(world[b]),
{
    assert(moved(world).dom() =~= world.dom());
}

/// An entity that does not move keeps its components over a tick.
pub proof fn lemma_still_entities_unchanged(world: Map<u64, EntityRow>, b: u64)
    requires
        world.contains_key(b),
        !row_moves(world[b]),
    ensures
        moved(world)[b] == world[b],
{
}

} // verus!
