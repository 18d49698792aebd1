//! Serializers for the first version's login packets.
pub mod msgpack;
