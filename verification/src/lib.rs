//! The verified core of a small multiplayer game server and its terminal client.
pub mod wire;
pub mod shared;
pub mod server;
pub mod ecs;
pub mod client;
pub mod legacy;
