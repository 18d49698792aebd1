//! Components that game entities carry.
use vstd::prelude::*;

use crate::wire::{
    Wire, WireValue, wire_struct1, wire_struct2, wire_u64, wire_i32, field_of, object1, object2,
    text, read_struct1, read_struct2, read_u64, read_i32,
};

verus! {

/// Marks an entity as controlled by the player of a connection.
#[derive(Debug, Clone, Copy, PartialEq, Eq)]
pub struct Player {
    pub id: u64,
}

/// Where an entity stands on the grid.
#[derive(Debug, Clone, Copy, PartialEq, Eq)]
pub struct Position {
    pub x: i32,
    pub y: i32,
}

/// Used in conjunction with the Position component in the movement system.
#[derive(Debug, Clone, Copy, PartialEq, Eq)]
pub struct Velocity {
    pub dx: i32,
    pub dy: i32,
}

pub open spec fn encode_player(p: Player) -> Wire {
    Wire::Object(seq![("id"@, Wire::UInt(p.id))])
}

pub open spec fn decode_player(w: Wire) -> Option<Player> {
    match wire_struct1(w, "id"@) {
        Some(v) => match wire_u64(v) {
            Some(id) => Some(Player { id }),
            None => None,
        },
        None => None,
    }
}

pub open spec fn encode_position(p: Position) -> Wire {
    Wire::Object(seq![("x"@, Wire::Int(p.x as i64)), ("y"@, Wire::Int(p.y as i64))])
}

pub open spec fn decode_position(w: Wire) -> Option<Position> {
    match wire_struct2(w, "x"@, "y"@) {
        Some((a, b)) => match (wire_i32(a), wire_i32(b)) {
            (Some(x), Some(y)) => Some(Position { x, y }),
            _ => None,
        },
        None => None,
    }
}

pub proof fn lemma_player_roundtrip(p: Player)
    ensures
        decode_player(encode_player(p)) == Some(p),
{
}

pub proof fn lemma_position_roundtrip(p: Position)
    ensures
        decode_position(encode_position(p)) == Some(p),
{
    reveal_strlit("x");
    reveal_strlit("y");
    assert("x"@.len() == 1 && "y"@.len() == 1);
    assert("x"@[0] != "y"@[0]);
    assert("x"@ != "y"@);
    let e = seq![("x"@, Wire::Int(p.x as i64)), ("y"@, Wire::Int(p.y as i64))];
    assert(e.subrange(1, 2) =~= seq![("y"@, Wire::Int(p.y as i64))]);
    assert(field_of(e.subrange(1, 2), "y"@) == Some(Wire::Int(p.y as i64)));
}

impl Player {
    /// The player as a wire value: an object with its `id`.
    pub fn to_wire(&self) -> (r: WireValue)
        ensures
            r@ == encode_player(*self),
    {
        object1("id", WireValue::UInt(self.id))
    }

    /// Reads a player from a wire value.
    pub fn from_wire(w: &WireValue) -> (r: Option<Player>)
        ensures
            r == decode_player(w@),
    {
        let k = text("id");
        match read_struct1(w, &k) {
            Some(v) => match read_u64(v) {
                Some(id) => Some(Player { id }),
                None => None,
            },
            None => None,
        }
    }
}

impl Position {
    /// The position as a wire value: an object with `x` and `y`.
    pub fn to_wire(&self) -> (r: WireValue)
        ensures
            r@ == encode_position(*self),
    {
        object2("x", WireValue::Int(self.x as i64), "y", WireValue::Int(self.y as i64))
    }

    /// Reads a position from a wire value.
    pub fn from_wire(w: &WireValue) -> (r: Option<Position>)
        ensures
            r == decode_position(w@),
    {
        let kx = text("x");
        let ky = text("y");
        match read_struct2(w, &kx, &ky) {
            Some((a, b)) => match (read_i32(a), read_i32(b)) {
                (Some(x), Some(y)) => Some(Position { x, y }),
                _ => None,
            },
            None => None,
        }
    }
}

} // verus!
