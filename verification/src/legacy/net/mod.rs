//! The first version's game packets and their serializer.
pub mod packets;
pub mod serializers;
