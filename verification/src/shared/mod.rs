//! Types shared by the server and the client: entity components, the world
//! snapshot, the packets exchanged over the network and their serializers.
use vstd::prelude::*;

use crate::shared::components::{Player, Position};

pub mod components;
pub mod packets;
pub mod serializers;

verus! {

/// Identifies a network connection.
pub type ConnId = u64;

/// Identifies a live entity of the game world.
pub type EntityId = u32;

/// Everything a newly joined player needs to know about the world.
#[derive(Debug, Clone, PartialEq, Eq)]
pub struct WorldSnapshot {
    pub players: Vec<(EntityId, Player)>,
    pub positions: Vec<(EntityId, Position)>,
}

} // verus!
