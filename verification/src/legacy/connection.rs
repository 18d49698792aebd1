//! What a connection of the first version decides: it queues packets in an
//! outbox and, when told to, writes the whole outbox and empties it.
use vstd::prelude::*;

use crate::legacy::packets::{Packet, LoginPacketView, decode_login_packet};
use crate::legacy::serializers::msgpack::deserialize;
use crate::wire::WireValue;

verus! {

/// Messages to be sent between the Hub and a Connection
#[derive(Debug, Clone, PartialEq, Eq)]
pub enum ConnectionMessage {
    /// Signals from Hub to drop the connection
    Disconnect,
    /// Signals from Connection to Hub that it has disconnected
    Disconnected(u64),
    /// Signals from Hub to send all packets in the outbox
    SendPackets,
    /// Signals from Connection that a packet has been received
    PacketReceived(u64, Packet),
    /// Signals from Hub to enqueue a packet into the outbox
    EnqueuePacket(Packet),
}

pub enum ConnectionMessageView {
    Disconnect,
    Disconnected(u64),
    SendPackets,
    PacketReceived(u64, LoginPacketView),
    EnqueuePacket(LoginPacketView),
}

impl View for ConnectionMessage {
    type V = ConnectionMessageView;

    open spec fn view(&self) -> ConnectionMessageView {
        match self {
            ConnectionMessage::Disconnect => ConnectionMessageView::Disconnect,
            ConnectionMessage::Disconnected(id) => ConnectionMessageView::Disconnected(*id),
            ConnectionMessage::SendPackets => ConnectionMessageView::SendPackets,
            ConnectionMessage::PacketReceived(id, p) => ConnectionMessageView::PacketReceived(
                *id,
                p@,
            ),
            ConnectionMessage::EnqueuePacket(p) => ConnectionMessageView::EnqueuePacket(p@),
        }
    }
}

/// What to do after a message from the hub.
#[derive(Debug, PartialEq, Eq)]
pub enum ConnectionStep {
    /// Stop serving the connection.
    Stop,
    /// Keep going.
    Continue,
    /// Write these packets to the client, then keep going.
    Write(Vec<Packet>),
}

/// What to do with one read from the socket.
#[derive(Debug, PartialEq, Eq)]
pub enum ReadOutcome {
    /// The client closed the connection.
    Closed,
    /// Tell the hub about the packet.
    Forward(ConnectionMessage),
    /// The data held no packet; report it and keep reading.
    Malformed,
}

/// Object in charge of communication with a single client.
pub struct Connection {
    id: u64,
    /// all packets to send to the client
    outbox: Vec<Packet>,
}

impl Connection {
    pub closed spec fn spec_id(&self) -> u64 {
        self.id
    }

    /// The packets queued for the client, oldest first.
    pub closed spec fn outbox_view(&self) -> Seq<LoginPacketView> {
        self.outbox@.map_values(|p: Packet| p@)
    }

    pub fn new(id: u64) -> (r: Connection)
        ensures
            r.spec_id() == id,
            r.outbox_view() == Seq::<LoginPacketView>::empty(),
    {
        let r = Connection { id, outbox: Vec::new() };
        assert(r.outbox_view() =~= Seq::<LoginPacketView>::empty());
        r
    }

    /// Queues the packet that tells the client its id.
    pub fn greet(&mut self)
        ensures
            final(self).spec_id() == old(self).spec_id(),
            final(self).outbox_view() == old(self).outbox_view().push(
                LoginPacketView::Id(old(self).spec_id()),
            ),
    {
        self.outbox.push(Packet::Id(self.id));
        assert(self.outbox_view() =~= old(self).outbox_view().push(LoginPacketView::Id(self.id)));
    }

    /// A message from the hub's own channel.
    pub fn on_hub_message(&mut self, msg: ConnectionMessage) -> (r: ConnectionStep)
        ensures
            final(self).spec_id() == old(self).spec_id(),
            match msg@ {
                ConnectionMessageView::Disconnect => r is Stop && final(self).outbox_view()
                    == old(self).outbox_view(),
                ConnectionMessageView::EnqueuePacket(p) => r is Continue
                    && final(self).outbox_view() == old(self).outbox_view().push(p),
                _ => r is Continue && final(self).outbox_view() == old(self).outbox_view(),
            },
    {
        match msg {
            ConnectionMessage::Disconnect => ConnectionStep::Stop,
            ConnectionMessage::EnqueuePacket(p) => {
                self.outbox.push(p);
                assert(self.outbox_view() =~= old(self).outbox_view().push(msg@->EnqueuePacket_0));
                ConnectionStep::Continue
            },
            _ => ConnectionStep::Continue,
        }
    }

    /// A message broadcast to every connection: like one from the hub, and
    /// `SendPackets` writes every packet in the outbox, oldest first, and
    /// empties it, so that each queued packet reaches the client once.
    pub fn on_broadcast_message(&mut self, msg: ConnectionMessage) -> (r: ConnectionStep)
        ensures
            final(self).spec_id() == old(self).spec_id(),
            match msg@ {
                ConnectionMessageView::Disconnect => r is Stop && final(self).outbox_view()
                    == old(self).outbox_view(),
                ConnectionMessageView::EnqueuePacket(p) => r is Continue
                    && final(self).outbox_view() == old(self).outbox_view().push(p),
                ConnectionMessageView::SendPackets => final(self).outbox_view()
                    == Seq::<LoginPacketView>::empty() && (r matches ConnectionStep::Write(ps)
                    && ps@.map_values(|p: Packet| p@) == old(self).outbox_view()),
                _ => r is Continue && final(self).outbox_view() == old(self).outbox_view(),
            },
    {
        match msg {
            ConnectionMessage::SendPackets => {
                let mut out: Vec<Packet> = Vec::new();
                std::mem::swap(&mut out, &mut self.outbox);
                assert(self.outbox_view() =~= Seq::<LoginPacketView>::empty());
                ConnectionStep::Write(out)
            },
            other => self.on_hub_message(other),
        }
    }

    /// A read of `n` bytes whose bytes, if they could be read at all, held the
    /// wire value `data`.
    pub fn on_read(&self, n: usize, data: Option<&WireValue>) -> (r: ReadOutcome)
        ensures
            n == 0 ==> r is Closed,
            n != 0 ==> match data {
                Some(w) => match decode_login_packet(w@) {
                    Some(p) => r matches ReadOutcome::Forward(m) && m@
                        == ConnectionMessageView::PacketReceived(self.spec_id(), p),
                    None => r is Malformed,
                },
                None => r is Malformed,
            },
    {
        if n == 0 {
            return ReadOutcome::Closed;
        }
        match data {
            Some(w) => match deserialize(w) {
                Ok(p) => ReadOutcome::Forward(ConnectionMessage::PacketReceived(self.id, p)),
                Err(_) => ReadOutcome::Malformed,
            },
            None => ReadOutcome::Malformed,
        }
    }
}

} // verus!
