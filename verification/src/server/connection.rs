//! What a connection decides: the greeting it sends, what it does with the
//! bytes it reads, and which messages from the hub it writes to the client.
//! The socket and the channels belong to the caller.
use vstd::prelude::*;

use crate::server::messages::{ConnectionMessage, ConnectionMessageView};
use crate::shared::packets::{Packet, PacketView, decode_packet};
use crate::shared::serializers::json::{deserialize, MalformedPacket};
use crate::shared::ConnId;
use crate::wire::WireValue;

verus! {

/// What to do with one read from the socket.
#[derive(Debug, PartialEq, Eq)]
pub enum ReadOutcome {
    /// The client closed the connection.
    Closed,
    /// Tell the hub about the packet.
    Forward(ConnectionMessage),
    /// The data held no packet; report it and keep reading.
    Malformed,
}

/// Object in charge of communication with a single client.
pub struct Connection {
    id: ConnId,
}

impl Connection {
    pub closed spec fn spec_id(&self) -> ConnId {
        self.id
    }

    pub fn new(id: ConnId) -> (r: Connection)
        ensures
            r.spec_id() == id,
    {
        Connection { id }
    }

    pub fn id(&self) -> (r: ConnId)
        ensures
            r == self.spec_id(),
    {
        self.id
    }

    /// The packet a client is sent first: its connection id.
    pub fn greeting(&self) -> (p: Packet)
        ensures
            p@ == PacketView::Id(self.spec_id()),
    {
        Packet::Id(self.id)
    }

    /// A read of `n` bytes whose text, if any, held the wire value `data`:
    /// zero bytes close the connection, a packet goes to the hub, anything
    /// else is malformed.
    pub fn on_read(&self, n: usize, data: Option<&WireValue>) -> (r: ReadOutcome)
        ensures
            n == 0 ==> r is Closed,
            n != 0 ==> match data {
                Some(w) => match decode_packet(w@) {
                    Some(p) => r matches ReadOutcome::Forward(m) && m@
                        == ConnectionMessageView::PacketReceived(self.spec_id(), p),
                    None => r is Malformed,
                },
                None => r is Malformed,
            },
    {
        if n == 0 {
            return ReadOutcome::Closed;
        }
        match data {
            Some(w) => match deserialize(w) {
                Ok(p) => ReadOutcome::Forward(ConnectionMessage::PacketReceived(self.id, p)),
                Err(MalformedPacket) => ReadOutcome::Malformed,
            },
            None => ReadOutcome::Malformed,
        }
    }

    /// The packet a message from the hub asks to write to the client, if any.
    pub fn on_hub_message(&self, msg: ConnectionMessage) -> (r: Option<Packet>)
        ensures
            match msg@ {
                ConnectionMessageView::SendPacket(p) => r matches Some(q) && q@ == p,
                _ => r is None,
            },
    {
        match msg {
            ConnectionMessage::SendPacket(p) => Some(p),
            _ => None,
        }
    }
}

} // verus!
