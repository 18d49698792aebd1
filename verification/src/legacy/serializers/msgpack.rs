//! The MessagePack serializer's part that this library owns: a login packet's
//! wire value. The bytes of a wire value are written and read by `rmp_serde`.
use vstd::prelude::*;

use crate::legacy::packets::{
    Packet, LoginPacketView, encode_login_packet, decode_login_packet,
    lemma_login_packet_roundtrip,
};
use crate::shared::serializers::json::MalformedPacket;
use crate::wire::WireValue;

verus! {

/// The wire value of a packet.
pub fn serialize(p: &Packet) -> (r: WireValue)
    ensures
        r@ == encode_login_packet(p@),
{
    p.to_wire()
}

/// The packet that a wire value holds; fails exactly when it holds none.
pub fn deserialize(data: &WireValue) -> (r: Result<Packet, MalformedPacket>)
    ensures
        r is Ok <==> decode_login_packet(data@) is Some,
        r matches Ok(p) ==> decode_login_packet(data@) == Some(p@),
{
    match Packet::from_wire(data) {
        Some(p) => Ok(p),
        None => Err(MalformedPacket),
    }
}

/// Deserializing what was serialized gives back the packet.
pub proof fn lemma_serialize_deserialize(p: LoginPacketView)
    ensures
        decode_login_packet(encode_login_packet(p)) == Some(p),
{
    lemma_login_packet_roundtrip(p);
}

} // verus!
