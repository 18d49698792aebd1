//! The packets exchanged between the server and its clients.
use vstd::prelude::*;

use crate::shared::components::{
    Player, Position, encode_player, decode_player, encode_position, decode_position,
    lemma_player_roundtrip, lemma_position_roundtrip,
};
use crate::shared::{ConnId, EntityId, WorldSnapshot};
use crate::wire::{
    Wire, WireValue, wire_variant, unit_content, wire_pair, wire_u32, wire_u64, wire_str,
    wire_struct2, field_of, lemma_model_seq, text, str_value, object1, object2, array2, array_of,
    read_variant, is_unit_content, read_pair, read_u32, read_u64, read_string, read_array,
    read_struct2,
};

verus! {

#[derive(Debug, Clone, Copy, PartialEq, Eq)]
pub enum Direction {
    Up,
    Down,
    Left,
    Right,
}

#[derive(Debug, Clone, Copy, PartialEq, Eq)]
pub enum Component {
    Position(Position),
    Player(Player),
}

#[derive(Debug, Clone, PartialEq, Eq)]
pub enum Packet {
    Id(ConnId),
    /// Acknowledges a request; written on the wire as `Ok`.
    Okay,
    /// Deny with a reason. Usually used in form validation, e.g. login/registration form.
    Deny(String),
    /// Telling a client about who has disconnected
    PlayerDisconnected(ConnId),
    Register(String, String),
    Login(String, String),
    /// A chat from the client to the server
    Chat(String),
    /// Denotes a chat from another player (id)
    ChatBroadcast(ConnId, String),
    /// Client wants to move in a direction
    Translate(Direction),
    ComponentUpdate(EntityId, Component),
    WorldSnapshot(WorldSnapshot),
}

/// The mathematical form of a [`Packet`]: strings as sequences of characters,
/// the snapshot's lists as sequences.
pub enum PacketView {
    Id(u64),
    /// Acknowledges a request; written on the wire as `Ok`.
    Okay,
    Deny(Seq<char>),
    PlayerDisconnected(u64),
    Register(Seq<char>, Seq<char>),
    Login(Seq<char>, Seq<char>),
    Chat(Seq<char>),
    ChatBroadcast(u64, Seq<char>),
    Translate(Direction),
    ComponentUpdate(u32, Component),
    WorldSnapshot(Seq<(u32, Player)>, Seq<(u32, Position)>),
}

impl View for Packet {
    type V = PacketView;

    open spec fn view(&self) -> PacketView {
        match self {
            Packet::Id(n) => PacketView::Id(*n),
            Packet::Okay => PacketView::Okay,
            Packet::Deny(s) => PacketView::Deny(s@),
            Packet::PlayerDisconnected(n) => PacketView::PlayerDisconnected(*n),
            Packet::Register(a, b) => PacketView::Register(a@, b@),
            Packet::Login(a, b) => PacketView::Login(a@, b@),
            Packet::Chat(s) => PacketView::Chat(s@),
            Packet::ChatBroadcast(n, s) => PacketView::ChatBroadcast(*n, s@),
            Packet::Translate(d) => PacketView::Translate(*d),
            Packet::ComponentUpdate(e, c) => PacketView::ComponentUpdate(*e, *c),
            Packet::WorldSnapshot(ws) => PacketView::WorldSnapshot(ws.players@, ws.positions@),
        }
    }
}

// ---------------------------------------------------------------------------
// The wire form of each type, as serde's derived implementations write it
// ---------------------------------------------------------------------------
/// A variant that holds content: an object whose one key names the variant.
pub open spec fn tagged(tag: Seq<char>, content: Wire) -> Wire {
    Wire::Object(seq![(tag, content)])
}

pub open spec fn encode_direction(d: Direction) -> Wire {
    match d {
        Direction::Up => Wire::Str("Up"@),
        Direction::Down => Wire::Str("Down"@),
        Direction::Left => Wire::Str("Left"@),
        Direction::Right => Wire::Str("Right"@),
    }
}

pub open spec fn decode_direction(w: Wire) -> Option<Direction> {
    match wire_variant(w) {
        Some((t, c)) => if !unit_content(c) {
            None
        } else if t == "Up"@ {
            Some(Direction::Up)
        } else if t == "Down"@ {
            Some(Direction::Down)
        } else if t == "Left"@ {
            Some(Direction::Left)
        } else if t == "Right"@ {
            Some(Direction::Right)
        } else {
            None
        },
        None => None,
    }
}

pub open spec fn encode_component(c: Component) -> Wire {
    match c {
        Component::Position(p) => tagged("Position"@, encode_position(p)),
        Component::Player(p) => tagged("Player"@, encode_player(p)),
    }
}

pub open spec fn decode_component(w: Wire) -> Option<Component> {
    match wire_variant(w) {
        Some((t, Some(c))) => if t == "Position"@ {
            match decode_position(c) {
                Some(p) => Some(Component::Position(p)),
                None => None,
            }
        } else if t == "Player"@ {
            match decode_player(c) {
                Some(p) => Some(Component::Player(p)),
                None => None,
            }
        } else {
            None
        },
        _ => None,
    }
}

pub open spec fn encode_player_entry(e: (u32, Player)) -> Wire {
    Wire::Array(seq![Wire::UInt(e.0 as u64), encode_player(e.1)])
}

pub open spec fn decode_player_entry(w: Wire) -> Option<(u32, Player)> {
    match wire_pair(w) {
        Some((a, b)) => match (wire_u32(a), decode_player(b)) {
            (Some(e), Some(p)) => Some((e, p)),
            _ => None,
        },
        None => None,
    }
}

pub open spec fn encode_position_entry(e: (u32, Position)) -> Wire {
    Wire::Array(seq![Wire::UInt(e.0 as u64), encode_position(e.1)])
}

pub open spec fn decode_position_entry(w: Wire) -> Option<(u32, Position)> {
    match wire_pair(w) {
        Some((a, b)) => match (wire_u32(a), decode_position(b)) {
            (Some(e), Some(p)) => Some((e, p)),
            _ => None,
        },
        None => None,
    }
}

pub open spec fn encode_player_list(s: Seq<(u32, Player)>) -> Wire {
    Wire::Array(Seq::new(s.len(), |i: int| encode_player_entry(s[i])))
}

/// A list decodes when each of its elements does.
pub open spec fn decode_player_list(w: Wire) -> Option<Seq<(u32, Player)>> {
    match w {
        Wire::Array(s) => if forall|i: int|
            0 <= i < s.len() ==> (#[trigger] decode_player_entry(s[i])) is Some {
            Some(Seq::new(s.len(), |i: int| decode_player_entry(s[i])->0))
        } else {
            None
        },
        _ => None,
    }
}

pub open spec fn encode_position_list(s: Seq<(u32, Position)>) -> Wire {
    Wire::Array(Seq::new(s.len(), |i: int| encode_position_entry(s[i])))
}

pub open spec fn decode_position_list(w: Wire) -> Option<Seq<(u32, Position)>> {
    match w {
        Wire::Array(s) => if forall|i: int|
            0 <= i < s.len() ==> (#[trigger] decode_position_entry(s[i])) is Some {
            Some(Seq::new(s.len(), |i: int| decode_position_entry(s[i])->0))
        } else {
            None
        },
        _ => None,
    }
}

pub open spec fn encode_snapshot(players: Seq<(u32, Player)>, positions: Seq<(u32, Position)>) -> Wire {
    Wire::Object(
        seq![("players"@, encode_player_list(players)), ("positions"@, encode_position_list(positions))],
    )
}

pub open spec fn decode_snapshot(w: Wire) -> Option<(Seq<(u32, Player)>, Seq<(u32, Position)>)> {
    match wire_struct2(w, "players"@, "positions"@) {
        Some((a, b)) => match (decode_player_list(a), decode_position_list(b)) {
            (Some(pl), Some(po)) => Some((pl, po)),
            _ => None,
        },
        None => None,
    }
}

pub open spec fn encode_packet(p: PacketView) -> Wire {
    match p {
        PacketView::Id(n) => tagged("Id"@, Wire::UInt(n)),
        PacketView::Okay => Wire::Str("Ok"@),
        PacketView::Deny(s) => tagged("Deny"@, Wire::Str(s)),
        PacketView::PlayerDisconnected(n) => tagged("PlayerDisconnected"@, Wire::UInt(n)),
        PacketView::Register(a, b) => tagged(
            "Register"@,
            Wire::Array(seq![Wire::Str(a), Wire::Str(b)]),
        ),
        PacketView::Login(a, b) => tagged("Login"@, Wire::Array(seq![Wire::Str(a), Wire::Str(b)])),
        PacketView::Chat(s) => tagged("Chat"@, Wire::Str(s)),
        PacketView::ChatBroadcast(n, s) => tagged(
            "ChatBroadcast"@,
            Wire::Array(seq![Wire::UInt(n), Wire::Str(s)]),
        ),
        PacketView::Translate(d) => tagged("Translate"@, encode_direction(d)),
        PacketView::ComponentUpdate(e, c) => tagged(
            "ComponentUpdate"@,
            Wire::Array(seq![Wire::UInt(e as u64), encode_component(c)]),
        ),
        PacketView::WorldSnapshot(pl, po) => tagged("WorldSnapshot"@, encode_snapshot(pl, po)),
    }
}

/// Two strings held in an array of exactly two elements.
pub open spec fn decode_str_pair(w: Wire) -> Option<(Seq<char>, Seq<char>)> {
    match wire_pair(w) {
        Some((a, b)) => match (wire_str(a), wire_str(b)) {
            (Some(x), Some(y)) => Some((x, y)),
            _ => None,
        },
        None => None,
    }
}

/// The packet that a variant's name and content stand for.
pub open spec fn decode_packet_variant(t: Seq<char>, content: Option<Wire>) -> Option<PacketView> {
    if t == "Ok"@ {
        if unit_content(content) {
            Some(PacketView::Okay)
        } else {
            None
        }
    } else {
        match content {
            None => None,
            Some(c) => if t == "Id"@ {
                match wire_u64(c) {
                    Some(n) => Some(PacketView::Id(n)),
                    None => None,
                }
            } else if t == "Deny"@ {
                match wire_str(c) {
                    Some(s) => Some(PacketView::Deny(s)),
                    None => None,
                }
            } else if t == "PlayerDisconnected"@ {
                match wire_u64(c) {
                    Some(n) => Some(PacketView::PlayerDisconnected(n)),
                    None => None,
                }
            } else if t == "Register"@ {
                match decode_str_pair(c) {
                    Some((a, b)) => Some(PacketView::Register(a, b)),
                    None => None,
                }
            } else if t == "Login"@ {
                match decode_str_pair(c) {
                    Some((a, b)) => Some(PacketView::Login(a, b)),
                    None => None,
                }
            } else if t == "Chat"@ {
                match wire_str(c) {
                    Some(s) => Some(PacketView::Chat(s)),
                    None => None,
                }
            } else if t == "ChatBroadcast"@ {
                match wire_pair(c) {
                    Some((a, b)) => match (wire_u64(a), wire_str(b)) {
                        (Some(n), Some(s)) => Some(PacketView::ChatBroadcast(n, s)),
                        _ => None,
                    },
                    None => None,
                }
            } else if t == "Translate"@ {
                match decode_direction(c) {
                    Some(d) => Some(PacketView::Translate(d)),
                    None => None,
                }
            } else if t == "ComponentUpdate"@ {
                match wire_pair(c) {
                    Some((a, b)) => match (wire_u32(a), decode_component(b)) {
                        (Some(e), Some(comp)) => Some(PacketView::ComponentUpdate(e, comp)),
                        _ => None,
                    },
                    None => None,
                }
            } else if t == "WorldSnapshot"@ {
                match decode_snapshot(c) {
                    Some((pl, po)) => Some(PacketView::WorldSnapshot(pl, po)),
                    None => None,
                }
            } else {
                None
            },
        }
    }
}

pub open spec fn decode_packet(w: Wire) -> Option<PacketView> {
    match wire_variant(w) {
        Some((t, c)) => decode_packet_variant(t, c),
        None => None,
    }
}

// ---------------------------------------------------------------------------
// Round trips
// ---------------------------------------------------------------------------
/// The lengths and first characters of the names written on the wire, which
/// tell them apart.
pub proof fn lemma_tags()
    ensures
        "Id"@.len() == 2 && "Id"@[0] == 'I',
        "Ok"@.len() == 2 && "Ok"@[0] == 'O',
        "Deny"@.len() == 4 && "Deny"@[0] == 'D',
        "PlayerDisconnected"@.len() == 18,
        "Register"@.len() == 8,
        "Login"@.len() == 5,
        "Chat"@.len() == 4 && "Chat"@[0] == 'C',
        "ChatBroadcast"@.len() == 13 && "ChatBroadcast"@[0] == 'C',
        "Translate"@.len() == 9,
        "ComponentUpdate"@.len() == 15,
        "WorldSnapshot"@.len() == 13 && "WorldSnapshot"@[0] == 'W',
        "Up"@.len() == 2,
        "Down"@.len() == 4 && "Down"@[0] == 'D',
        "Left"@.len() == 4 && "Left"@[0] == 'L',
        "Right"@.len() == 5,
        "Position"@.len() == 8,
        "Player"@.len() == 6,
        "players"@.len() == 7,
        "positions"@.len() == 9,
{
    reveal_strlit("Id");
    reveal_strlit("Ok");
    reveal_strlit("Deny");
    reveal_strlit("PlayerDisconnected");
    reveal_strlit("Register");
    reveal_strlit("Login");
    reveal_strlit("Chat");
    reveal_strlit("ChatBroadcast");
    reveal_strlit("Translate");
    reveal_strlit("ComponentUpdate");
    reveal_strlit("WorldSnapshot");
    reveal_strlit("Up");
    reveal_strlit("Down");
    reveal_strlit("Left");
    reveal_strlit("Right");
    reveal_strlit("Position");
    reveal_strlit("Player");
    reveal_strlit("players");
    reveal_strlit("positions");
}

pub proof fn lemma_direction_roundtrip(d: Direction)
    ensures
        decode_direction(encode_direction(d)) == Some(d),
{
    lemma_tags();
}

pub proof fn lemma_component_roundtrip(c: Component)
    ensures
        decode_component(encode_component(c)) == Some(c),
{
    lemma_tags();
    match c {
        Component::Position(p) => lemma_position_roundtrip(p),
        Component::Player(p) => lemma_player_roundtrip(p),
    }
}

pub proof fn lemma_player_list_roundtrip(s: Seq<(u32, Player)>)
    ensures
        decode_player_list(encode_player_list(s)) == Some(s),
{
    let w = Seq::new(s.len(), |i: int| encode_player_entry(s[i]));
    assert forall|i: int| 0 <= i < w.len() implies #[trigger] decode_player_entry(w[i]) == Some(
        s[i],
    ) by {
        lemma_player_roundtrip(s[i].1);
    }
    assert(Seq::new(w.len(), |i: int| decode_player_entry(w[i])->0) =~= s);
}

pub proof fn lemma_position_list_roundtrip(s: Seq<(u32, Position)>)
    ensures
        decode_position_list(encode_position_list(s)) == Some(s),
{
    let w = Seq::new(s.len(), |i: int| encode_position_entry(s[i]));
    assert forall|i: int| 0 <= i < w.len() implies #[trigger] decode_position_entry(w[i])
        == Some(s[i]) by {
        lemma_position_roundtrip(s[i].1);
    }
    assert(Seq::new(w.len(), |i: int| decode_position_entry(w[i])->0) =~= s);
}

pub proof fn lemma_snapshot_roundtrip(pl: Seq<(u32, Player)>, po: Seq<(u32, Position)>)
    ensures
        decode_snapshot(encode_snapshot(pl, po)) == Some((pl, po)),
{
    lemma_tags();
    lemma_player_list_roundtrip(pl);
    lemma_position_list_roundtrip(po);
    let e = seq![("players"@, encode_player_list(pl)), ("positions"@, encode_position_list(po))];
    assert(e.subrange(1, 2) =~= seq![("positions"@, encode_position_list(po))]);
    assert(field_of(e.subrange(1, 2), "positions"@) == Some(encode_position_list(po)));
}

/// Reading back what was written gives the packet that was written.
pub proof fn lemma_packet_roundtrip(p: PacketView)
    ensures
        decode_packet(encode_packet(p)) == Some(p),
{
    lemma_tags();
    match p {
        PacketView::Translate(d) => lemma_direction_roundtrip(d),
        PacketView::ComponentUpdate(_, c) => lemma_component_roundtrip(c),
        PacketView::WorldSnapshot(pl, po) => lemma_snapshot_roundtrip(pl, po),
        _ => {},
    }
}

/// Each direction is written as its own name, and each name is read back as
/// that direction.
pub proof fn lemma_direction_wire_names()
    ensures
        encode_direction(Direction::Up) == Wire::Str("Up"@),
        encode_direction(Direction::Down) == Wire::Str("Down"@),
        encode_direction(Direction::Left) == Wire::Str("Left"@),
        encode_direction(Direction::Right) == Wire::Str("Right"@),
        decode_direction(Wire::Str("Up"@)) == Some(Direction::Up),
        decode_direction(Wire::Str("Down"@)) == Some(Direction::Down),
        decode_direction(Wire::Str("Left"@)) == Some(Direction::Left),
        decode_direction(Wire::Str("Right"@)) == Some(Direction::Right),
{
    lemma_tags();
}

/// A component is written under its own variant's name, and a struct as an
/// object keyed by its field names; what is written is read back.
pub proof fn lemma_component_wire_form(p: Position, q: Player)
    ensures
        encode_component(Component::Position(p)) == Wire::Object(
            seq![("Position"@, Wire::Object(seq![("x"@, Wire::Int(p.x as i64)), ("y"@, Wire::Int(p.y as i64))]))],
        ),
        encode_component(Component::Player(q)) == Wire::Object(
            seq![("Player"@, Wire::Object(seq![("id"@, Wire::UInt(q.id))]))],
        ),
        decode_component(
            Wire::Object(
                seq![("Position"@, Wire::Object(seq![("x"@, Wire::Int(p.x as i64)), ("y"@, Wire::Int(p.y as i64))]))],
            ),
        ) == Some(Component::Position(p)),
        decode_component(
            Wire::Object(seq![("Player"@, Wire::Object(seq![("id"@, Wire::UInt(q.id))]))]),
        ) == Some(Component::Player(q)),
{
    lemma_component_roundtrip(Component::Position(p));
    lemma_component_roundtrip(Component::Player(q));
}

/// A snapshot is an object with the list of players under `players` and the
/// list of positions under `positions`, each entry an array of the entity id
/// and the component.
pub proof fn lemma_snapshot_wire_form(pl: Seq<(u32, Player)>, po: Seq<(u32, Position)>)
    ensures
        encode_snapshot(pl, po) == Wire::Object(
            seq![
                (
                    "players"@,
                    Wire::Array(
                        Seq::new(
                            pl.len(),
                            |i: int|
                                Wire::Array(
                                    seq![
                                        Wire::UInt(pl[i].0 as u64),
                                        Wire::Object(seq![("id"@, Wire::UInt(pl[i].1.id))]),
                                    ],
                                ),
                        ),
                    ),
                ),
                (
                    "positions"@,
                    Wire::Array(
                        Seq::new(
                            po.len(),
                            |i: int|
                                Wire::Array(
                                    seq![
                                        Wire::UInt(po[i].0 as u64),
                                        Wire::Object(
                                            seq![
                                                ("x"@, Wire::Int(po[i].1.x as i64)),
                                                ("y"@, Wire::Int(po[i].1.y as i64)),
                                            ],
                                        ),
                                    ],
                                ),
                        ),
                    ),
                ),
            ],
        ),
{
    let ps = Seq::new(
        pl.len(),
        |i: int|
            Wire::Array(
                seq![Wire::UInt(pl[i].0 as u64), Wire::Object(seq![("id"@, Wire::UInt(pl[i].1.id))])],
            ),
    );
    assert(Seq::new(pl.len(), |i: int| encode_player_entry(pl[i])) =~= ps);
    let qs = Seq::new(
        po.len(),
        |i: int|
            Wire::Array(
                seq![
                    Wire::UInt(po[i].0 as u64),
                    Wire::Object(
                        seq![("x"@, Wire::Int(po[i].1.x as i64)), ("y"@, Wire::Int(po[i].1.y as i64))],
                    ),
                ],
            ),
    );
    assert(Seq::new(po.len(), |i: int| encode_position_entry(po[i])) =~= qs);
}

/// Each packet is written under its own variant's name (a unit variant as the
/// bare name), with its fields in order: one field as itself, several as an
/// array; and the value written for each variant is read back as that
/// variant with the same fields.
pub proof fn lemma_packet_wire_form(
    n: u64,
    e: u32,
    a: Seq<char>,
    b: Seq<char>,
    d: Direction,
    c: Component,
    pl: Seq<(u32, Player)>,
    po: Seq<(u32, Position)>,
)
    ensures
        encode_packet(PacketView::Id(n)) == Wire::Object(seq![("Id"@, Wire::UInt(n))]),
        encode_packet(PacketView::Okay) == Wire::Str("Ok"@),
        encode_packet(PacketView::Deny(a)) == Wire::Object(seq![("Deny"@, Wire::Str(a))]),
        encode_packet(PacketView::PlayerDisconnected(n)) == Wire::Object(
            seq![("PlayerDisconnected"@, Wire::UInt(n))],
        ),
        encode_packet(PacketView::Register(a, b)) == Wire::Object(
            seq![("Register"@, Wire::Array(seq![Wire::Str(a), Wire::Str(b)]))],
        ),
        encode_packet(PacketView::Login(a, b)) == Wire::Object(
            seq![("Login"@, Wire::Array(seq![Wire::Str(a), Wire::Str(b)]))],
        ),
        encode_packet(PacketView::Chat(a)) == Wire::Object(seq![("Chat"@, Wire::Str(a))]),
        encode_packet(PacketView::ChatBroadcast(n, a)) == Wire::Object(
            seq![("ChatBroadcast"@, Wire::Array(seq![Wire::UInt(n), Wire::Str(a)]))],
        ),
        encode_packet(PacketView::Translate(d)) == Wire::Object(
            seq![("Translate"@, encode_direction(d))],
        ),
        encode_packet(PacketView::ComponentUpdate(e, c)) == Wire::Object(
            seq![("ComponentUpdate"@, Wire::Array(seq![Wire::UInt(e as u64), encode_component(c)]))],
        ),
        encode_packet(PacketView::WorldSnapshot(pl, po)) == Wire::Object(
            seq![("WorldSnapshot"@, encode_snapshot(pl, po))],
        ),
        decode_packet(Wire::Object(seq![("Id"@, Wire::UInt(n))])) == Some(PacketView::Id(n)),
        decode_packet(Wire::Str("Ok"@)) == Some(PacketView::Okay),
        decode_packet(Wire::Object(seq![("Deny"@, Wire::Str(a))])) == Some(PacketView::Deny(a)),
        decode_packet(Wire::Object(seq![("PlayerDisconnected"@, Wire::UInt(n))])) == Some(
            PacketView::PlayerDisconnected(n),
        ),
        decode_packet(Wire::Object(seq![("Register"@, Wire::Array(seq![Wire::Str(a), Wire::Str(b)]))]))
            == Some(PacketView::Register(a, b)),
        decode_packet(Wire::Object(seq![("Login"@, Wire::Array(seq![Wire::Str(a), Wire::Str(b)]))]))
            == Some(PacketView::Login(a, b)),
        decode_packet(Wire::Object(seq![("Chat"@, Wire::Str(a))])) == Some(PacketView::Chat(a)),
        decode_packet(Wire::Object(seq![("ChatBroadcast"@, Wire::Array(seq![Wire::UInt(n), Wire::Str(a)]))]))
            == Some(PacketView::ChatBroadcast(n, a)),
        decode_packet(Wire::Object(seq![("Translate"@, encode_direction(d))])) == Some(
            PacketView::Translate(d),
        ),
        decode_packet(
            Wire::Object(
                seq![("ComponentUpdate"@, Wire::Array(seq![Wire::UInt(e as u64), encode_component(c)]))],
            ),
        ) == Some(PacketView::ComponentUpdate(e, c)),
        decode_packet(Wire::Object(seq![("WorldSnapshot"@, encode_snapshot(pl, po))])) == Some(
            PacketView::WorldSnapshot(pl, po),
        ),
{
    lemma_packet_roundtrip(PacketView::Id(n));
    lemma_packet_roundtrip(PacketView::Okay);
    lemma_packet_roundtrip(PacketView::Deny(a));
    lemma_packet_roundtrip(PacketView::PlayerDisconnected(n));
    lemma_packet_roundtrip(PacketView::Register(a, b));
    lemma_packet_roundtrip(PacketView::Login(a, b));
    lemma_packet_roundtrip(PacketView::Chat(a));
    lemma_packet_roundtrip(PacketView::ChatBroadcast(n, a));
    lemma_packet_roundtrip(PacketView::Translate(d));
    lemma_packet_roundtrip(PacketView::ComponentUpdate(e, c));
    lemma_packet_roundtrip(PacketView::WorldSnapshot(pl, po));
}

// ---------------------------------------------------------------------------
// Executable writers and readers
// ---------------------------------------------------------------------------
impl Direction {
    /// The direction as a wire value: its name.
    pub fn to_wire(&self) -> (r: WireValue)
        ensures
            r@ == encode_direction(*self),
    {
        match self {
            Direction::Up => str_value("Up"),
            Direction::Down => str_value("Down"),
            Direction::Left => str_value("Left"),
            Direction::Right => str_value("Right"),
        }
    }

    /// Reads a direction from a wire value.
    pub fn from_wire(w: &WireValue) -> (r: Option<Direction>)
        ensures
            r == decode_direction(w@),
    {
        match read_variant(w) {
            Some((t, c)) => {
                if !is_unit_content(c) {
                    None
                } else if *t == text("Up") {
                    Some(Direction::Up)
                } else if *t == text("Down") {
                    Some(Direction::Down)
                } else if *t == text("Left") {
                    Some(Direction::Left)
                } else if *t == text("Right") {
                    Some(Direction::Right)
                } else {
                    None
                }
            },
            None => None,
        }
    }
}

impl Component {
    /// The component as a wire value: an object keyed by its kind.
    pub fn to_wire(&self) -> (r: WireValue)
        ensures
            r@ == encode_component(*self),
    {
        match self {
            Component::Position(p) => object1("Position", p.to_wire()),
            Component::Player(p) => object1("Player", p.to_wire()),
        }
    }

    /// Reads a component from a wire value.
    pub fn from_wire(w: &WireValue) -> (r: Option<Component>)
        ensures
            r == decode_component(w@),
    {
        match read_variant(w) {
            Some((t, Some(c))) => {
                if *t == text("Position") {
                    match Position::from_wire(c) {
                        Some(p) => Some(Component::Position(p)),
                        None => None,
                    }
                } else if *t == text("Player") {
                    match Player::from_wire(c) {
                        Some(p) => Some(Component::Player(p)),
                        None => None,
                    }
                } else {
                    None
                }
            },
            _ => None,
        }
    }
}

fn player_list_to_wire(s: &Vec<(EntityId, Player)>) -> (r: WireValue)
    ensures
        r@ == encode_player_list(s@),
{
    let mut out: Vec<WireValue> = Vec::new();
    let mut i: usize = 0;
    while i < s.len()
        invariant
            0 <= i <= s.len(),
            out@.len() == i,
            forall|j: int| 0 <= j < i ==> #[trigger] out@[j]@ == encode_player_entry(s@[j]),
        decreases s.len() - i,
    {
        let (e, p) = s[i];
        out.push(array2(WireValue::UInt(e as u64), p.to_wire()));
        i = i + 1;
    }
    let r = array_of(out);
    assert(Seq::new(out@.len(), |i: int| out@[i]@) =~= Seq::new(
        s@.len(),
        |i: int| encode_player_entry(s@[i]),
    ));
    r
}

fn position_list_to_wire(s: &Vec<(EntityId, Position)>) -> (r: WireValue)
    ensures
        r@ == encode_position_list(s@),
{
    let mut out: Vec<WireValue> = Vec::new();
    let mut i: usize = 0;
    while i < s.len()
        invariant
            0 <= i <= s.len(),
            out@.len() == i,
            forall|j: int| 0 <= j < i ==> #[trigger] out@[j]@ == encode_position_entry(s@[j]),
        decreases s.len() - i,
    {
        let (e, p) = s[i];
        out.push(array2(WireValue::UInt(e as u64), p.to_wire()));
        i = i + 1;
    }
    let r = array_of(out);
    assert(Seq::new(out@.len(), |i: int| out@[i]@) =~= Seq::new(
        s@.len(),
        |i: int| encode_position_entry(s@[i]),
    ));
    r
}

fn player_entry_from_wire(w: &WireValue) -> (r: Option<(EntityId, Player)>)
    ensures
        r == decode_player_entry(w@),
{
    match read_pair(w) {
        Some((a, b)) => match (read_u32(a), Player::from_wire(b)) {
            (Some(e), Some(p)) => Some((e, p)),
            _ => None,
        },
        None => None,
    }
}

fn position_entry_from_wire(w: &WireValue) -> (r: Option<(EntityId, Position)>)
    ensures
        r == decode_position_entry(w@),
{
    match read_pair(w) {
        Some((a, b)) => match (read_u32(a), Position::from_wire(b)) {
            (Some(e), Some(p)) => Some((e, p)),
            _ => None,
        },
        None => None,
    }
}

fn player_list_from_wire(w: &WireValue) -> (r: Option<Vec<(EntityId, Player)>>)
    ensures
        r is Some <==> decode_player_list(w@) is Some,
        r matches Some(v) ==> decode_player_list(w@) == Some(v@),
{
    let v = match read_array(w) {
        Some(v) => v,
        None => return None,
    };
    let ghost s = WireValue::model_seq(v@);
    proof {
        lemma_model_seq(v@);
    }
    let mut out: Vec<(EntityId, Player)> = Vec::new();
    let mut i: usize = 0;
    while i < v.len()
        invariant
            0 <= i <= v.len(),
            s == WireValue::model_seq(v@),
            w@ == Wire::Array(s),
            s.len() == v@.len(),
            forall|j: int| 0 <= j < v@.len() ==> #[trigger] s[j] == v@[j]@,
            out@.len() == i,
            forall|j: int|
                0 <= j < i ==> #[trigger] decode_player_entry(s[j]) == Some(out@[j]),
        decreases v.len() - i,
    {
        match player_entry_from_wire(&v[i]) {
            Some(e) => out.push(e),
            None => {
                assert(decode_player_entry(s[i as int]) is None);
                assert(w@ == Wire::Array(s));
                assert(!(forall|j: int|
                    0 <= j < s.len() ==> (#[trigger] decode_player_entry(s[j])) is Some));
                return None;
            },
        }
        i = i + 1;
    }
    assert(Seq::new(s.len(), |i: int| decode_player_entry(s[i])->0) =~= out@);
    Some(out)
}

fn position_list_from_wire(w: &WireValue) -> (r: Option<Vec<(EntityId, Position)>>)
    ensures
        r is Some <==> decode_position_list(w@) is Some,
        r matches Some(v) ==> decode_position_list(w@) == Some(v@),
{
    let v = match read_array(w) {
        Some(v) => v,
        None => return None,
    };
    let ghost s = WireValue::model_seq(v@);
    proof {
        lemma_model_seq(v@);
    }
    let mut out: Vec<(EntityId, Position)> = Vec::new();
    let mut i: usize = 0;
    while i < v.len()
        invariant
            0 <= i <= v.len(),
            s == WireValue::model_seq(v@),
            w@ == Wire::Array(s),
            s.len() == v@.len(),
            forall|j: int| 0 <= j < v@.len() ==> #[trigger] s[j] == v@[j]@,
            out@.len() == i,
            forall|j: int|
                0 <= j < i ==> #[trigger] decode_position_entry(s[j]) == Some(out@[j]),
        decreases v.len() - i,
    {
        match position_entry_from_wire(&v[i]) {
            Some(e) => out.push(e),
            None => {
                assert(decode_position_entry(s[i as int]) is None);
                assert(w@ == Wire::Array(s));
                assert(!(forall|j: int|
                    0 <= j < s.len() ==> (#[trigger] decode_position_entry(s[j])) is Some));
                return None;
            },
        }
        i = i + 1;
    }
    assert(Seq::new(s.len(), |i: int| decode_position_entry(s[i])->0) =~= out@);
    Some(out)
}

impl WorldSnapshot {
    /// The snapshot as a wire value: an object with `players` and `positions`.
    pub fn to_wire(&self) -> (r: WireValue)
        ensures
            r@ == encode_snapshot(self.players@, self.positions@),
    {
        object2(
            "players",
            player_list_to_wire(&self.players),
            "positions",
            position_list_to_wire(&self.positions),
        )
    }

    /// Reads a snapshot from a wire value.
    pub fn from_wire(w: &WireValue) -> (r: Option<WorldSnapshot>)
        ensures
            r is Some <==> decode_snapshot(w@) is Some,
            r matches Some(ws) ==> decode_snapshot(w@) == Some((ws.players@, ws.positions@)),
    {
        let k1 = text("players");
        let k2 = text("positions");
        match read_struct2(w, &k1, &k2) {
            Some((a, b)) => match (player_list_from_wire(a), position_list_from_wire(b)) {
                (Some(players), Some(positions)) => Some(WorldSnapshot { players, positions }),
                _ => None,
            },
            None => None,
        }
    }
}

fn str_pair_from_wire(w: &WireValue) -> (r: Option<(String, String)>)
    ensures
        r is Some <==> decode_str_pair(w@) is Some,
        r matches Some(p) ==> decode_str_pair(w@) == Some((p.0@, p.1@)),
{
    match read_pair(w) {
        Some((a, b)) => match (read_string(a), read_string(b)) {
            (Some(x), Some(y)) => Some((x, y)),
            _ => None,
        },
        None => None,
    }
}

fn str_pair_to_wire(a: &String, b: &String) -> (r: WireValue)
    ensures
        r@ == Wire::Array(seq![Wire::Str(a@), Wire::Str(b@)]),
{
    array2(WireValue::Str(a.clone()), WireValue::Str(b.clone()))
}

impl Packet {
    /// The packet as a wire value.
    pub fn to_wire(&self) -> (r: WireValue)
        ensures
            r@ == encode_packet(self@),
    {
        match self {
            Packet::Id(n) => object1("Id", WireValue::UInt(*n)),
            Packet::Okay => str_value("Ok"),
            Packet::Deny(s) => object1("Deny", WireValue::Str(s.clone())),
            Packet::PlayerDisconnected(n) => object1("PlayerDisconnected", WireValue::UInt(*n)),
            Packet::Register(a, b) => object1("Register", str_pair_to_wire(a, b)),
            Packet::Login(a, b) => object1("Login", str_pair_to_wire(a, b)),
            Packet::Chat(s) => object1("Chat", WireValue::Str(s.clone())),
            Packet::ChatBroadcast(n, s) => object1(
                "ChatBroadcast",
                array2(WireValue::UInt(*n), WireValue::Str(s.clone())),
            ),
            Packet::Translate(d) => object1("Translate", d.to_wire()),
            Packet::ComponentUpdate(e, c) => object1(
                "ComponentUpdate",
                array2(WireValue::UInt(*e as u64), c.to_wire()),
            ),
            Packet::WorldSnapshot(ws) => object1("WorldSnapshot", ws.to_wire()),
        }
    }

    /// Reads a packet from a wire value.
    pub fn from_wire(w: &WireValue) -> (r: Option<Packet>)
        ensures
            r is Some <==> decode_packet(w@) is Some,
            r matches Some(p) ==> decode_packet(w@) == Some(p@),
    {
        let (t, c) = match read_variant(w) {
            Some(v) => v,
            None => return None,
        };
        if *t == text("Ok") {
            return if is_unit_content(c) {
                Some(Packet::Okay)
            } else {
                None
            };
        }
        let c = match c {
            Some(c) => c,
            None => return None,
        };
        if *t == text("Id") {
            match read_u64(c) {
                Some(n) => Some(Packet::Id(n)),
                None => None,
            }
        } else if *t == text("Deny") {
            match read_string(c) {
                Some(s) => Some(Packet::Deny(s)),
                None => None,
            }
        } else if *t == text("PlayerDisconnected") {
            match read_u64(c) {
                Some(n) => Some(Packet::PlayerDisconnected(n)),
                None => None,
            }
        } else if *t == text("Register") {
            match str_pair_from_wire(c) {
                Some((a, b)) => Some(Packet::Register(a, b)),
                None => None,
            }
        } else if *t == text("Login") {
            match str_pair_from_wire(c) {
                Some((a, b)) => Some(Packet::Login(a, b)),
                None => None,
            }
        } else if *t == text("Chat") {
            match read_string(c) {
                Some(s) => Some(Packet::Chat(s)),
                None => None,
            }
        } else if *t == text("ChatBroadcast") {
            match read_pair(c) {
                Some((a, b)) => match (read_u64(a), read_string(b)) {
                    (Some(n), Some(s)) => Some(Packet::ChatBroadcast(n, s)),
                    _ => None,
                },
                None => None,
            }
        } else if *t == text("Translate") {
            match Direction::from_wire(c) {
                Some(d) => Some(Packet::Translate(d)),
                None => None,
            }
        } else if *t == text("ComponentUpdate") {
            match read_pair(c) {
                Some((a, b)) => match (read_u32(a), Component::from_wire(b)) {
                    (Some(e), Some(comp)) => Some(Packet::ComponentUpdate(e, comp)),
                    _ => None,
                },
                None => None,
            }
        } else if *t == text("WorldSnapshot") {
            match WorldSnapshot::from_wire(c) {
                Some(ws) => Some(Packet::WorldSnapshot(ws)),
                None => None,
            }
        } else {
            None
        }
    }
}

} // verus!
