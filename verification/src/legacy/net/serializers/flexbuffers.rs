//! The FlexBuffers serializer's part that this library owns: a game packet's
//! wire value. The bytes of a wire value are written and read by `flexbuffers`.
use vstd::prelude::*;

use crate::legacy::net::packets::{
    Packet, NetPacketView, encode_net_packet, decode_net_packet, lemma_net_packet_roundtrip,
};
use crate::shared::serializers::json::MalformedPacket;
use crate::wire::WireValue;

verus! {

/// The wire value of a packet.
pub fn serialize(p: &Packet) -> (r: WireValue)
    ensures
        r@ == encode_net_packet(p@),
{
    p.to_wire()
}

/// The packet that a wire value holds; fails exactly when it holds none.
pub fn deserialize(data: &WireValue) -> (r: Result<Packet, MalformedPacket>)
    ensures
        r is Ok <==> decode_net_packet(data@) is Some,
        r matches Ok(p) ==> decode_net_packet(data@) == Some(p@),
{
    match Packet::from_wire(data) {
        Some(p) => Ok(p),
        None => Err(MalformedPacket),
    }
}

/// Deserializing what was serialized gives back the packet.
pub proof fn lemma_serialize_deserialize(p: NetPacketView)
    ensures
        decode_net_packet(encode_net_packet(p)) == Some(p),
{
    lemma_net_packet_roundtrip(p);
}

} // verus!
