//! Messages passed between the connections, the hub and the game.
use vstd::prelude::*;

use crate::shared::packets::{Component, Packet, PacketView};
use crate::shared::{ConnId, EntityId};

verus! {

/// Messages to be sent between the Hub and a Connection
#[derive(Debug, Clone, PartialEq, Eq)]
pub enum ConnectionMessage {
    /// Signals from Connection to Hub to say "i've disconnected"
    Disconnected(ConnId),
    /// Signals from Connection that a packet has been received
    PacketReceived(ConnId, Packet),
    /// Signals from Hub to send a packet to the client
    SendPacket(Packet),
}

pub enum ConnectionMessageView {
    Disconnected(u64),
    PacketReceived(u64, PacketView),
    SendPacket(PacketView),
}

impl View for ConnectionMessage {
    type V = ConnectionMessageView;

    open spec fn view(&self) -> ConnectionMessageView {
        match self {
            ConnectionMessage::Disconnected(id) => ConnectionMessageView::Disconnected(*id),
            ConnectionMessage::PacketReceived(id, p) => ConnectionMessageView::PacketReceived(
                *id,
                p@,
            ),
            ConnectionMessage::SendPacket(p) => ConnectionMessageView::SendPacket(p@),
        }
    }
}

/// Messages to be sent between the Hub and the Game layers.
/// assists in translation between connection concepts and game concepts
#[derive(Debug, Clone, PartialEq, Eq)]
pub enum HubMessage {
    PacketFromClient(ConnId, Packet),
    /// Not necessarily connection closed; just that player logged out
    PlayerLeft(ConnId),
    /// Player logged in. (conn_id, username)
    PlayerJoined(ConnId, String),
    SendTo(ConnId, Packet),
    Broadcast(Packet),
}

pub enum HubMessageView {
    PacketFromClient(u64, PacketView),
    PlayerLeft(u64),
    PlayerJoined(u64, Seq<char>),
    SendTo(u64, PacketView),
    Broadcast(PacketView),
}

impl View for HubMessage {
    type V = HubMessageView;

    open spec fn view(&self) -> HubMessageView {
        match self {
            HubMessage::PacketFromClient(id, p) => HubMessageView::PacketFromClient(*id, p@),
            HubMessage::PlayerLeft(id) => HubMessageView::PlayerLeft(*id),
            HubMessage::PlayerJoined(id, name) => HubMessageView::PlayerJoined(*id, name@),
            HubMessage::SendTo(id, p) => HubMessageView::SendTo(*id, p@),
            HubMessage::Broadcast(p) => HubMessageView::Broadcast(p@),
        }
    }
}

/// Messages to be sent within the Game layer
/// e.g. from System to System
#[derive(Debug, Clone, Copy, PartialEq, Eq)]
pub enum GameMessage {
    ComponentUpdate(EntityId, Component),
}

} // verus!
