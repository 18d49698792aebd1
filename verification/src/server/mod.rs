//! The game server: the hub that routes messages between connections and the
//! game, the game itself, and its systems.
pub mod messages;
pub mod hub;
pub mod systems;
pub mod game;
pub mod connection;
pub mod pacing;
