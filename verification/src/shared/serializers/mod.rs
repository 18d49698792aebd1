//! Serializers for packets; each turns a packet into its wire value and back.
pub mod json;
