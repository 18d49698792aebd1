//! Serializers for the first version's game packets.
pub mod flexbuffers;
