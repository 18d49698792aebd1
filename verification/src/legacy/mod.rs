//! The first version of the server: its packets and serializers, its game, its
//! hub's tick and its connections' outboxes.
pub mod packets;
pub mod serializers;
pub mod net;
pub mod game;
pub mod connection;
pub mod hub;
