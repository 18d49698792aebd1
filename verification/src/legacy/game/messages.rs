//! Messages between the first version's hub and game.
use vstd::prelude::*;

use crate::legacy::net::packets::{Packet, NetPacketView};

verus! {

#[derive(Debug, Clone, PartialEq, Eq)]
pub enum GameMessage {
    PacketFromClient(u64, Packet),
    ClientDisconnected(u64),
    ClientConnected(u64),
    SendTo(u64, Packet),
    Broadcast(Packet),
}

pub enum GameMessageView {
    PacketFromClient(u64, NetPacketView),
    ClientDisconnected(u64),
    ClientConnected(u64),
    SendTo(u64, NetPacketView),
    Broadcast(NetPacketView),
}

impl View for GameMessage {
    type V = GameMessageView;

    open spec fn view(&self) -> GameMessageView {
        match self {
            GameMessage::PacketFromClient(id, p) => GameMessageView::PacketFromClient(*id, p@),
            GameMessage::ClientDisconnected(id) => GameMessageView::ClientDisconnected(*id),
            GameMessage::ClientConnected(id) => GameMessageView::ClientConnected(*id),
            GameMessage::SendTo(id, p) => GameMessageView::SendTo(*id, p@),
            GameMessage::Broadcast(p) => GameMessageView::Broadcast(p@),
        }
    }
}

} // verus!
