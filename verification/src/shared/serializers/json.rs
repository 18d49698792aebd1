//! The JSON serializer's part that this library owns: a packet's wire value.
//! The JSON text of a wire value is written and read by `serde_json`.
use vstd::prelude::*;

use crate::shared::packets::{Packet, PacketView, encode_packet, decode_packet, lemma_packet_roundtrip};
use crate::wire::WireValue;

verus! {

/// A wire value that is no packet.
#[derive(Debug, Clone, Copy, PartialEq, Eq)]
pub struct MalformedPacket;

/// The wire value of a packet.
pub fn serialize(p: &Packet) -> (r: WireValue)
    ensures
        r@ == encode_packet(p@),
{
    p.to_wire()
}

/// The packet that a wire value holds; fails exactly when it holds none.
pub fn deserialize(data: &WireValue) -> (r: Result<Packet, MalformedPacket>)
    ensures
        r is Ok <==> decode_packet(data@) is Some,
        r matches Ok(p) ==> decode_packet(data@) == Some(p@),
{
    match Packet::from_wire(data) {
        Some(p) => Ok(p),
        None => Err(MalformedPacket),
    }
}

/// Deserializing what was serialized gives back the packet.
pub proof fn lemma_serialize_deserialize(p: PacketView)
    ensures
        decode_packet(encode_packet(p)) == Some(p),
{
    lemma_packet_roundtrip(p);
}

} // verus!
