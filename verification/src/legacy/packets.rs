//! The first version's login packets.
use vstd::prelude::*;

use crate::shared::packets::{tagged, decode_str_pair, lemma_tags};
use crate::wire::{
    Wire, WireValue, wire_variant, unit_content, wire_u64, wire_pair, wire_str, text, str_value,
    object1, array2, read_variant, is_unit_content, read_u64, read_pair, read_string,
};

verus! {

#[derive(Debug, Clone, PartialEq, Eq)]
pub enum Packet {
    Id(u64),
    /// Acknowledges a request; written on the wire as `Ok`.
    Okay,
    Deny,
    /// Telling a client about who has disconnected
    PlayerDisconnected(u64),
    Register(String, String),
    Login(String, String),
}

pub enum LoginPacketView {
    Id(u64),
    Okay,
    Deny,
    PlayerDisconnected(u64),
    Register(Seq<char>, Seq<char>),
    Login(Seq<char>, Seq<char>),
}

impl View for Packet {
    type V = LoginPacketView;

    open spec fn view(&self) -> LoginPacketView {
        match self {
            Packet::Id(n) => LoginPacketView::Id(*n),
            Packet::Okay => LoginPacketView::Okay,
            Packet::Deny => LoginPacketView::Deny,
            Packet::PlayerDisconnected(n) => LoginPacketView::PlayerDisconnected(*n),
            Packet::Register(a, b) => LoginPacketView::Register(a@, b@),
            Packet::Login(a, b) => LoginPacketView::Login(a@, b@),
        }
    }
}

pub open spec fn encode_login_packet(p: LoginPacketView) -> Wire {
    match p {
        LoginPacketView::Id(n) => tagged("Id"@, Wire::UInt(n)),
        LoginPacketView::Okay => Wire::Str("Ok"@),
        LoginPacketView::Deny => Wire::Str("Deny"@),
        LoginPacketView::PlayerDisconnected(n) => tagged("PlayerDisconnected"@, Wire::UInt(n)),
        LoginPacketView::Register(a, b) => tagged(
            "Register"@,
            Wire::Array(seq![Wire::Str(a), Wire::Str(b)]),
        ),
        LoginPacketView::Login(a, b) => tagged(
            "Login"@,
            Wire::Array(seq![Wire::Str(a), Wire::Str(b)]),
        ),
    }
}

pub open spec fn decode_login_packet(w: Wire) -> Option<LoginPacketView> {
    match wire_variant(w) {
        Some((t, c)) => if t == "Ok"@ {
            if unit_content(c) {
                Some(LoginPacketView::Okay)
            } else {
                None
            }
        } else if t == "Deny"@ {
            if unit_content(c) {
                Some(LoginPacketView::Deny)
            } else {
                None
            }
        } else {
            match c {
                None => None,
                Some(c) => if t == "Id"@ {
                    match wire_u64(c) {
                        Some(n) => Some(LoginPacketView::Id(n)),
                        None => None,
                    }
                } else if t == "PlayerDisconnected"@ {
                    match wire_u64(c) {
                        Some(n) => Some(LoginPacketView::PlayerDisconnected(n)),
                        None => None,
                    }
                } else if t == "Register"@ {
                    match decode_str_pair(c) {
                        Some((a, b)) => Some(LoginPacketView::Register(a, b)),
                        None => None,
                    }
                } else if t == "Login"@ {
                    match decode_str_pair(c) {
                        Some((a, b)) => Some(LoginPacketView::Login(a, b)),
                        None => None,
                    }
                } else {
                    None
                },
            }
        },
        None => None,
    }
}

/// Reading back what was written gives the packet that was written.
pub proof fn lemma_login_packet_roundtrip(p: LoginPacketView)
    ensures
        decode_login_packet(encode_login_packet(p)) == Some(p),
{
    lemma_tags();
}

/// Each login packet is written under its own variant's name (a unit variant
/// as the bare name), with its fields in order, and the value written for each
/// variant is read back as that variant with the same fields.
pub proof fn lemma_login_packet_wire_form(n: u64, a: Seq<char>, b: Seq<char>)
    ensures
        encode_login_packet(LoginPacketView::Id(n)) == Wire::Object(seq![("Id"@, Wire::UInt(n))]),
        encode_login_packet(LoginPacketView::Okay) == Wire::Str("Ok"@),
        encode_login_packet(LoginPacketView::Deny) == Wire::Str("Deny"@),
        encode_login_packet(LoginPacketView::PlayerDisconnected(n)) == Wire::Object(
            seq![("PlayerDisconnected"@, Wire::UInt(n))],
        ),
        encode_login_packet(LoginPacketView::Register(a, b)) == Wire::Object(
            seq![("Register"@, Wire::Array(seq![Wire::Str(a), Wire::Str(b)]))],
        ),
        encode_login_packet(LoginPacketView::Login(a, b)) == Wire::Object(
            seq![("Login"@, Wire::Array(seq![Wire::Str(a), Wire::Str(b)]))],
        ),
        decode_login_packet(Wire::Object(seq![("Id"@, Wire::UInt(n))])) == Some(
            LoginPacketView::Id(n),
        ),
        decode_login_packet(Wire::Str("Ok"@)) == Some(LoginPacketView::Okay),
        decode_login_packet(Wire::Str("Deny"@)) == Some(LoginPacketView::Deny),
        decode_login_packet(Wire::Object(seq![("PlayerDisconnected"@, Wire::UInt(n))])) == Some(
            LoginPacketView::PlayerDisconnected(n),
        ),
        decode_login_packet(
            Wire::Object(seq![("Register"@, Wire::Array(seq![Wire::Str(a), Wire::Str(b)]))]),
        ) == Some(LoginPacketView::Register(a, b)),
        decode_login_packet(
            Wire::Object(seq![("Login"@, Wire::Array(seq![Wire::Str(a), Wire::Str(b)]))]),
        ) == Some(LoginPacketView::Login(a, b)),
{
    lemma_login_packet_roundtrip(LoginPacketView::Id(n));
    lemma_login_packet_roundtrip(LoginPacketView::Okay);
    lemma_login_packet_roundtrip(LoginPacketView::Deny);
    lemma_login_packet_roundtrip(LoginPacketView::PlayerDisconnected(n));
    lemma_login_packet_roundtrip(LoginPacketView::Register(a, b));
    lemma_login_packet_roundtrip(LoginPacketView::Login(a, b));
}

fn str_pair(w: &WireValue) -> (r: Option<(String, String)>)
    ensures
        r is Some <==> decode_str_pair(w@) is Some,
        r matches Some(p) ==> decode_str_pair(w@) == Some((p.0@, p.1@)),
{
    match read_pair(w) {
        Some((a, b)) => match (read_string(a), read_string(b)) {
            (Some(x), Some(y)) => Some((x, y)),
            _ => None,
        },
        None => None,
    }
}

impl Packet {
    /// The packet as a wire value.
    pub fn to_wire(&self) -> (r: WireValue)
        ensures
            r@ == encode_login_packet(self@),
    {
        match self {
            Packet::Id(n) => object1("Id", WireValue::UInt(*n)),
            Packet::Okay => str_value("Ok"),
            Packet::Deny => str_value("Deny"),
            Packet::PlayerDisconnected(n) => object1("PlayerDisconnected", WireValue::UInt(*n)),
            Packet::Register(a, b) => object1(
                "Register",
                array2(WireValue::Str(a.clone()), WireValue::Str(b.clone())),
            ),
            Packet::Login(a, b) => object1(
                "Login",
                array2(WireValue::Str(a.clone()), WireValue::Str(b.clone())),
            ),
        }
    }

    /// Reads a packet from a wire value.
    pub fn from_wire(w: &WireValue) -> (r: Option<Packet>)
        ensures
            r is Some <==> decode_login_packet(w@) is Some,
            r matches Some(p) ==> decode_login_packet(w@) == Some(p@),
    {
        let (t, c) = match read_variant(w) {
            Some(v) => v,
            None => return None,
        };
        if *t == text("Ok") {
            return if is_unit_content(c) {
                Some(Packet::Okay)
            } else {
                None
            };
        }
        if *t == text("Deny") {
            return if is_unit_content(c) {
                Some(Packet::Deny)
            } else {
                None
            };
        }
        let c = match c {
            Some(c) => c,
            None => return None,
        };
        if *t == text("Id") {
            match read_u64(c) {
                Some(n) => Some(Packet::Id(n)),
                None => None,
            }
        } else if *t == text("PlayerDisconnected") {
            match read_u64(c) {
                Some(n) => Some(Packet::PlayerDisconnected(n)),
                None => None,
            }
        } else if *t == text("Register") {
            match str_pair(c) {
                Some((a, b)) => Some(Packet::Register(a, b)),
                None => None,
            }
        } else if *t == text("Login") {
            match str_pair(c) {
                Some((a, b)) => Some(Packet::Login(a, b)),
                None => None,
            }
        } else {
            None
        }
    }
}

} // verus!
