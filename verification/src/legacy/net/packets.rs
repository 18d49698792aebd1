//! The first version's game packets.
use vstd::prelude::*;

pub use crate::shared::packets::{Component, Direction};
use crate::shared::components::{Player, Position};
use crate::shared::packets::{
    tagged, encode_direction, decode_direction, encode_component, decode_component,
    encode_snapshot, decode_snapshot, decode_str_pair, lemma_tags, lemma_direction_roundtrip,
    lemma_component_roundtrip, lemma_snapshot_roundtrip,
};
use crate::shared::WorldSnapshot;
use crate::wire::{
    Wire, WireValue, wire_variant, unit_content, wire_u64, wire_u32, wire_pair, wire_str, text,
    str_value, object1, array2, read_variant, is_unit_content, read_u64, read_u32, read_pair,
    read_string,
};

verus! {

#[derive(Debug, Clone, PartialEq, Eq)]
pub enum Packet {
    Id(u64),
    /// Acknowledges a request; written on the wire as `Ok`.
    Okay,
    Deny,
    /// Telling a client about who has disconnected
    PlayerDisconnected(u64),
    Register(String, String),
    Login(String, String),
    /// A chat from the client to the server
    Chat(String),
    /// Denotes a chat from another player (id)
    ChatBroadcast(u64, String),
    /// Client wants to move in a direction
    Translate(Direction),
    ComponentUpdate(u32, Component),
    WorldSnapshot(WorldSnapshot),
}

pub enum NetPacketView {
    Id(u64),
    Okay,
    Deny,
    PlayerDisconnected(u64),
    Register(Seq<char>, Seq<char>),
    Login(Seq<char>, Seq<char>),
    Chat(Seq<char>),
    ChatBroadcast(u64, Seq<char>),
    Translate(Direction),
    ComponentUpdate(u32, Component),
    WorldSnapshot(Seq<(u32, Player)>, Seq<(u32, Position)>),
}

impl View for Packet {
    type V = NetPacketView;

    open spec fn view(&self) -> NetPacketView {
        match self {
            Packet::Id(n) => NetPacketView::Id(*n),
            Packet::Okay => NetPacketView::Okay,
            Packet::Deny => NetPacketView::Deny,
            Packet::PlayerDisconnected(n) => NetPacketView::PlayerDisconnected(*n),
            Packet::Register(a, b) => NetPacketView::Register(a@, b@),
            Packet::Login(a, b) => NetPacketView::Login(a@, b@),
            Packet::Chat(s) => NetPacketView::Chat(s@),
            Packet::ChatBroadcast(n, s) => NetPacketView::ChatBroadcast(*n, s@),
            Packet::Translate(d) => NetPacketView::Translate(*d),
            Packet::ComponentUpdate(e, c) => NetPacketView::ComponentUpdate(*e, *c),
            Packet::WorldSnapshot(ws) => NetPacketView::WorldSnapshot(ws.players@, ws.positions@),
        }
    }
}

pub open spec fn encode_net_packet(p: NetPacketView) -> Wire {
    match p {
        NetPacketView::Id(n) => tagged("Id"@, Wire::UInt(n)),
        NetPacketView::Okay => Wire::Str("Ok"@),
        NetPacketView::Deny => Wire::Str("Deny"@),
        NetPacketView::PlayerDisconnected(n) => tagged("PlayerDisconnected"@, Wire::UInt(n)),
        NetPacketView::Register(a, b) => tagged(
            "Register"@,
            Wire::Array(seq![Wire::Str(a), Wire::Str(b)]),
        ),
        NetPacketView::Login(a, b) => tagged(
            "Login"@,
            Wire::Array(seq![Wire::Str(a), Wire::Str(b)]),
        ),
        NetPacketView::Chat(s) => tagged("Chat"@, Wire::Str(s)),
        NetPacketView::ChatBroadcast(n, s) => tagged(
            "ChatBroadcast"@,
            Wire::Array(seq![Wire::UInt(n), Wire::Str(s)]),
        ),
        NetPacketView::Translate(d) => tagged("Translate"@, encode_direction(d)),
        NetPacketView::ComponentUpdate(e, c) => tagged(
            "ComponentUpdate"@,
            Wire::Array(seq![Wire::UInt(e as u64), encode_component(c)]),
        ),
        NetPacketView::WorldSnapshot(pl, po) => tagged("WorldSnapshot"@, encode_snapshot(pl, po)),
    }
}

pub open spec fn decode_net_packet_content(t: Seq<char>, c: Wire) -> Option<NetPacketView> {
    if t == "Id"@ {
        match wire_u64(c) {
            Some(n) => Some(NetPacketView::Id(n)),
            None => None,
        }
    } else if t == "PlayerDisconnected"@ {
        match wire_u64(c) {
            Some(n) => Some(NetPacketView::PlayerDisconnected(n)),
            None => None,
        }
    } else if t == "Register"@ {
        match decode_str_pair(c) {
            Some((a, b)) => Some(NetPacketView::Register(a, b)),
            None => None,
        }
    } else if t == "Login"@ {
        match decode_str_pair(c) {
            Some((a, b)) => Some(NetPacketView::Login(a, b)),
            None => None,
        }
    } else if t == "Chat"@ {
        match wire_str(c) {
            Some(s) => Some(NetPacketView::Chat(s)),
            None => None,
        }
    } else if t == "ChatBroadcast"@ {
        match wire_pair(c) {
            Some((a, b)) => match (wire_u64(a), wire_str(b)) {
                (Some(n), Some(s)) => Some(NetPacketView::ChatBroadcast(n, s)),
                _ => None,
            },
            None => None,
        }
    } else if t == "Translate"@ {
        match decode_direction(c) {
            Some(d) => Some(NetPacketView::Translate(d)),
            None => None,
        }
    } else if t == "ComponentUpdate"@ {
        match wire_pair(c) {
            Some((a, b)) => match (wire_u32(a), decode_component(b)) {
                (Some(e), Some(comp)) => Some(NetPacketView::ComponentUpdate(e, comp)),
                _ => None,
            },
            None => None,
        }
    } else if t == "WorldSnapshot"@ {
        match decode_snapshot(c) {
            Some((pl, po)) => Some(NetPacketView::WorldSnapshot(pl, po)),
            None => None,
        }
    } else {
        None
    }
}

pub open spec fn decode_net_packet(w: Wire) -> Option<NetPacketView> {
    match wire_variant(w) {
        Some((t, c)) => if t == "Ok"@ {
            if unit_content(c) {
                Some(NetPacketView::Okay)
            } else {
                None
            }
        } else if t == "Deny"@ {
            if unit_content(c) {
                Some(NetPacketView::Deny)
            } else {
                None
            }
        } else {
            match c {
                None => None,
                Some(c) => decode_net_packet_content(t, c),
            }
        },
        None => None,
    }
}

/// Reading back what was written gives the packet that was written.
pub proof fn lemma_net_packet_roundtrip(p: NetPacketView)
    ensures
        decode_net_packet(encode_net_packet(p)) == Some(p),
{
    lemma_tags();
    match p {
        NetPacketView::Translate(d) => lemma_direction_roundtrip(d),
        NetPacketView::ComponentUpdate(_, c) => lemma_component_roundtrip(c),
        NetPacketView::WorldSnapshot(pl, po) => lemma_snapshot_roundtrip(pl, po),
        _ => {},
    }
}

/// Each game packet is written under its own variant's name (a unit variant
/// as the bare name), with its fields in order, and the value written for each
/// variant is read back as that variant with the same fields.
pub proof fn lemma_net_packet_wire_form(
    n: u64,
    e: u32,
    a: Seq<char>,
    b: Seq<char>,
    d: Direction,
    c: Component,
    pl: Seq<(u32, Player)>,
    po: Seq<(u32, Position)>,
)
    ensures
        encode_net_packet(NetPacketView::Id(n)) == Wire::Object(seq![("Id"@, Wire::UInt(n))]),
        encode_net_packet(NetPacketView::Okay) == Wire::Str("Ok"@),
        encode_net_packet(NetPacketView::Deny) == Wire::Str("Deny"@),
        encode_net_packet(NetPacketView::PlayerDisconnected(n)) == Wire::Object(
            seq![("PlayerDisconnected"@, Wire::UInt(n))],
        ),
        encode_net_packet(NetPacketView::Register(a, b)) == Wire::Object(
            seq![("Register"@, Wire::Array(seq![Wire::Str(a), Wire::Str(b)]))],
        ),
        encode_net_packet(NetPacketView::Login(a, b)) == Wire::Object(
            seq![("Login"@, Wire::Array(seq![Wire::Str(a), Wire::Str(b)]))],
        ),
        encode_net_packet(NetPacketView::Chat(a)) == Wire::Object(seq![("Chat"@, Wire::Str(a))]),
        encode_net_packet(NetPacketView::ChatBroadcast(n, a)) == Wire::Object(
            seq![("ChatBroadcast"@, Wire::Array(seq![Wire::UInt(n), Wire::Str(a)]))],
        ),
        encode_net_packet(NetPacketView::Translate(d)) == Wire::Object(
            seq![("Translate"@, encode_direction(d))],
        ),
        encode_net_packet(NetPacketView::ComponentUpdate(e, c)) == Wire::Object(
            seq![("ComponentUpdate"@, Wire::Array(seq![Wire::UInt(e as u64), encode_component(c)]))],
        ),
        encode_net_packet(NetPacketView::WorldSnapshot(pl, po)) == Wire::Object(
            seq![("WorldSnapshot"@, encode_snapshot(pl, po))],
        ),
        decode_net_packet(Wire::Object(seq![("Id"@, Wire::UInt(n))])) == Some(NetPacketView::Id(n)),
        decode_net_packet(Wire::Str("Ok"@)) == Some(NetPacketView::Okay),
        decode_net_packet(Wire::Str("Deny"@)) == Some(NetPacketView::Deny),
        decode_net_packet(Wire::Object(seq![("PlayerDisconnected"@, Wire::UInt(n))])) == Some(
            NetPacketView::PlayerDisconnected(n),
        ),
        decode_net_packet(
            Wire::Object(seq![("Register"@, Wire::Array(seq![Wire::Str(a), Wire::Str(b)]))]),
        ) == Some(NetPacketView::Register(a, b)),
        decode_net_packet(
            Wire::Object(seq![("Login"@, Wire::Array(seq![Wire::Str(a), Wire::Str(b)]))]),
        ) == Some(NetPacketView::Login(a, b)),
        decode_net_packet(Wire::Object(seq![("Chat"@, Wire::Str(a))])) == Some(NetPacketView::Chat(a)),
        decode_net_packet(
            Wire::Object(seq![("ChatBroadcast"@, Wire::Array(seq![Wire::UInt(n), Wire::Str(a)]))]),
        ) == Some(NetPacketView::ChatBroadcast(n, a)),
        decode_net_packet(Wire::Object(seq![("Translate"@, encode_direction(d))])) == Some(
            NetPacketView::Translate(d),
        ),
        decode_net_packet(
            Wire::Object(
                seq![("ComponentUpdate"@, Wire::Array(seq![Wire::UInt(e as u64), encode_component(c)]))],
            ),
        ) == Some(NetPacketView::ComponentUpdate(e, c)),
        decode_net_packet(Wire::Object(seq![("WorldSnapshot"@, encode_snapshot(pl, po))])) == Some(
            NetPacketView::WorldSnapshot(pl, po),
        ),
{
    lemma_net_packet_roundtrip(NetPacketView::Id(n));
    lemma_net_packet_roundtrip(NetPacketView::Okay);
    lemma_net_packet_roundtrip(NetPacketView::Deny);
    lemma_net_packet_roundtrip(NetPacketView::PlayerDisconnected(n));
    lemma_net_packet_roundtrip(NetPacketView::Register(a, b));
    lemma_net_packet_roundtrip(NetPacketView::Login(a, b));
    lemma_net_packet_roundtrip(NetPacketView::Chat(a));
    lemma_net_packet_roundtrip(NetPacketView::ChatBroadcast(n, a));
    lemma_net_packet_roundtrip(NetPacketView::Translate(d));
    lemma_net_packet_roundtrip(NetPacketView::ComponentUpdate(e, c));
    lemma_net_packet_roundtrip(NetPacketView::WorldSnapshot(pl, po));
}

fn str_pair(w: &WireValue) -> (r: Option<(String, String)>)
    ensures
        r is Some <==> decode_str_pair(w@) is Some,
        r matches Some(p) ==> decode_str_pair(w@) == Some((p.0@, p.1@)),
{
    match read_pair(w) {
        Some((a, b)) => match (read_string(a), read_string(b)) {
            (Some(x), Some(y)) => Some((x, y)),
            _ => None,
        },
        None => None,
    }
}

impl Packet {
    /// The packet as a wire value.
    pub fn to_wire(&self) -> (r: WireValue)
        ensures
            r@ == encode_net_packet(self@),
    {
        match self {
            Packet::Id(n) => object1("Id", WireValue::UInt(*n)),
            Packet::Okay => str_value("Ok"),
            Packet::Deny => str_value("Deny"),
            Packet::PlayerDisconnected(n) => object1("PlayerDisconnected", WireValue::UInt(*n)),
            Packet::Register(a, b) => object1(
                "Register",
                array2(WireValue::Str(a.clone()), WireValue::Str(b.clone())),
            ),
            Packet::Login(a, b) => object1(
                "Login",
                array2(WireValue::Str(a.clone()), WireValue::Str(b.clone())),
            ),
            Packet::Chat(s) => object1("Chat", WireValue::Str(s.clone())),
            Packet::ChatBroadcast(n, s) => object1(
                "ChatBroadcast",
                array2(WireValue::UInt(*n), WireValue::Str(s.clone())),
            ),
            Packet::Translate(d) => object1("Translate", d.to_wire()),
            Packet::ComponentUpdate(e, c) => object1(
                "ComponentUpdate",
                array2(WireValue::UInt(*e as u64), c.to_wire()),
            ),
            Packet::WorldSnapshot(ws) => object1("WorldSnapshot", ws.to_wire()),
        }
    }

    fn content_from_wire(t: &String, c: &WireValue) -> (r: Option<Packet>)
        ensures
            r is Some <==> decode_net_packet_content(t@, c@) is Some,
            r matches Some(p) ==> decode_net_packet_content(t@, c@) == Some(p@),
    {
        if *t == text("Id") {
            match read_u64(c) {
                Some(n) => Some(Packet::Id(n)),
                None => None,
            }
        } else if *t == text("PlayerDisconnected") {
            match read_u64(c) {
                Some(n) => Some(Packet::PlayerDisconnected(n)),
                None => None,
            }
        } else if *t == text("Register") {
            match str_pair(c) {
                Some((a, b)) => Some(Packet::Register(a, b)),
                None => None,
            }
        } else if *t == text("Login") {
            match str_pair(c) {
                Some((a, b)) => Some(Packet::Login(a, b)),
                None => None,
            }
        } else if *t == text("Chat") {
            match read_string(c) {
                Some(s) => Some(Packet::Chat(s)),
                None => None,
            }
        } else if *t == text("ChatBroadcast") {
            match read_pair(c) {
                Some((a, b)) => match (read_u64(a), read_string(b)) {
                    (Some(n), Some(s)) => Some(Packet::ChatBroadcast(n, s)),
                    _ => None,
                },
                None => None,
            }
        } else if *t == text("Translate") {
            match Direction::from_wire(c) {
                Some(d) => Some(Packet::Translate(d)),
                None => None,
            }
        } else if *t == text("ComponentUpdate") {
            match read_pair(c) {
                Some((a, b)) => match (read_u32(a), Component::from_wire(b)) {
                    (Some(e), Some(comp)) => Some(Packet::ComponentUpdate(e, comp)),
                    _ => None,
                },
                None => None,
            }
        } else if *t == text("WorldSnapshot") {
            match WorldSnapshot::from_wire(c) {
                Some(ws) => Some(Packet::WorldSnapshot(ws)),
                None => None,
            }
        } else {
            None
        }
    }

    /// Reads a packet from a wire value.
    pub fn from_wire(w: &WireValue) -> (r: Option<Packet>)
        ensures
            r is Some <==> decode_net_packet(w@) is Some,
            r matches Some(p) ==> decode_net_packet(w@) == Some(p@),
    {
        let (t, c) = match read_variant(w) {
            Some(v) => v,
            None => return None,
        };
        if *t == text("Ok") {
            return if is_unit_content(c) {
                Some(Packet::Okay)
            } else {
                None
            };
        }
        if *t == text("Deny") {
            return if is_unit_content(c) {
                Some(Packet::Deny)
            } else {
                None
            };
        }
        match c {
            Some(c) => Self::content_from_wire(t, c),
            None => None,
        }
    }
}

} // verus!
