//! The first version's hub: it numbers connections and, on each tick, answers
//! what the connections sent and sends its periodic messages.
use vstd::prelude::*;

use std::collections::HashSet;

use crate::legacy::connection::{ConnectionMessage, ConnectionMessageView};
use crate::legacy::packets::{Packet, LoginPacketView};

verus! {

broadcast use vstd::std_specs::hash::group_hash_axioms;

pub struct HubOptions {
    pub tick_rate: u8,
    pub port: u16,
}

/// Whom a message is sent to.
#[derive(Debug, Clone, Copy, PartialEq, Eq)]
pub enum SendTo {
    Id(u64),
    All,
}

/// The messages one tick sends: an acknowledgement to each connection that sent
/// a packet and the news of each disconnection to everyone, in order; every 20th tick an acknowledgement to everyone; every
/// 300th tick after the first (every fifteen seconds at 20 ticks per second)
/// the order to disconnect to everyone.
pub open spec fn tick_outcome(ticks: u64, incoming: Seq<ConnectionMessageView>) -> Seq<
    (SendTo, ConnectionMessageView),
> {
    let answers = answers(incoming);
    let periodic = if ticks % 20 == 0 {
        seq![(SendTo::All, ConnectionMessageView::EnqueuePacket(LoginPacketView::Okay))]
    } else {
        Seq::empty()
    };
    let closing = if ticks % 300 == 0 && ticks != 0 {
        seq![(SendTo::All, ConnectionMessageView::Disconnect)]
    } else {
        Seq::empty()
    };
    answers + periodic + closing
}

/// In order of arrival: an acknowledgement to each connection that sent a
/// packet, and to everyone the news of each connection that disconnected.
pub open spec fn answers(incoming: Seq<ConnectionMessageView>) -> Seq<(SendTo, ConnectionMessageView)>
    decreases incoming.len(),
{
    if incoming.len() == 0 {
        Seq::empty()
    } else {
        let rest = answers(incoming.drop_last());
        match incoming.last() {
            ConnectionMessageView::PacketReceived(id, _) => rest.push(
                (SendTo::Id(id), ConnectionMessageView::EnqueuePacket(LoginPacketView::Okay)),
            ),
            ConnectionMessageView::Disconnected(id) => rest.push(
                (
                    SendTo::All,
                    ConnectionMessageView::EnqueuePacket(LoginPacketView::PlayerDisconnected(id)),
                ),
            ),
            _ => rest,
        }
    }
}

pub struct Hub {
    opts: HubOptions,
    /// The id given to the latest connection; 0 before the first.
    last_id: u64,
    /// The ids of the open connections.
    connections: HashSet<u64>,
}

impl Hub {
    pub closed spec fn last_id(&self) -> u64 {
        self.last_id
    }

    pub closed spec fn spec_tick_rate(&self) -> u8 {
        self.opts.tick_rate
    }

    pub closed spec fn spec_port(&self) -> u16 {
        self.opts.port
    }

    /// The ids of the open connections.
    pub closed spec fn open_ids(&self) -> Set<u64> {
        self.connections@
    }

    /// Every open connection has an id that was given out already.
    pub open spec fn wf(&self) -> bool {
        forall|k: u64| #[trigger] self.open_ids().contains(k) ==> 1 <= k <= self.last_id()
    }

    pub fn new(opts: HubOptions) -> (r: Hub)
        ensures
            r.wf(),
            r.last_id() == 0,
            r.open_ids() == Set::<u64>::empty(),
            r.spec_tick_rate() == opts.tick_rate,
            r.spec_port() == opts.port,
    {
        Hub { opts, last_id: 0, connections: HashSet::new() }
    }

    pub fn tick_rate(&self) -> (r: u8)
        ensures
            r == self.spec_tick_rate(),
    {
        self.opts.tick_rate
    }

    pub fn port(&self) -> (r: u16)
        ensures
            r == self.spec_port(),
    {
        self.opts.port
    }

    /// Whether another connection can be given an id.
    pub fn can_register(&self) -> (r: bool)
        ensures
            r == (self.last_id() < u64::MAX),
    {
        self.last_id < u64::MAX
    }

    /// Gives a new connection the next id, one more than the previous one, and
    /// records it as open.
    pub fn register_connection(&mut self) -> (id: u64)
        requires
            old(self).wf(),
            old(self).last_id() < u64::MAX,
        ensures
            final(self).wf(),
            id == old(self).last_id() + 1,
            final(self).last_id() == id,
            !old(self).open_ids().contains(id),
            final(self).open_ids() == old(self).open_ids().insert(id),
            final(self).spec_tick_rate() == old(self).spec_tick_rate(),
            final(self).spec_port() == old(self).spec_port(),
    {
        self.last_id = self.last_id + 1;
        let id = self.last_id;
        self.connections.insert(id);
        assert forall|k: u64| #[trigger] self.open_ids().contains(k) implies 1 <= k
            <= self.last_id() by {
            if k != id {
                assert(old(self).open_ids().contains(k));
            }
        }
        id
    }

    /// Forgets a connection that has finished.
    pub fn remove_connection(&mut self, id: u64)
        requires
            old(self).wf(),
        ensures
            final(self).wf(),
            final(self).open_ids() == old(self).open_ids().remove(id),
            final(self).last_id() == old(self).last_id(),
            final(self).spec_tick_rate() == old(self).spec_tick_rate(),
            final(self).spec_port() == old(self).spec_port(),
    {
        self.connections.remove(&id);
        assert forall|k: u64| #[trigger] self.open_ids().contains(k) implies 1 <= k
            <= self.last_id() by {
            assert(old(self).open_ids().contains(k));
        }
    }

    /// Whether a message to the connection `id` can be delivered: it is open.
    pub fn is_open(&self, id: u64) -> (r: bool)
        ensures
            r == self.open_ids().contains(id),
    {
        self.connections.contains(&id)
    }

    /// The messages tick number `ticks` sends, given what the connections sent.
    pub fn tick(&self, ticks: u64, incoming: Vec<ConnectionMessage>) -> (out: Vec<
        (SendTo, ConnectionMessage),
    >)
        ensures
            out@.map_values(|e: (SendTo, ConnectionMessage)| (e.0, e.1@)) == tick_outcome(
                ticks,
                incoming@.map_values(|m: ConnectionMessage| m@),
            ),
    {
        let ghost inc = incoming@.map_values(|m: ConnectionMessage| m@);
        let mut out: Vec<(SendTo, ConnectionMessage)> = Vec::new();
        let mut i: usize = 0;
        while i < incoming.len()
            invariant
                0 <= i <= incoming.len(),
                inc == incoming@.map_values(|m: ConnectionMessage| m@),
                out@.map_values(|e: (SendTo, ConnectionMessage)| (e.0, e.1@)) == answers(
                    inc.take(i as int),
                ),
            decreases incoming.len() - i,
        {
            assert(inc.take(i + 1).drop_last() =~= inc.take(i as int));
            match &incoming[i] {
                ConnectionMessage::PacketReceived(id, _) => {
                    out.push((SendTo::Id(*id), ConnectionMessage::EnqueuePacket(Packet::Okay)));
                },
                ConnectionMessage::Disconnected(id) => {
                    // tell everyone
                    out.push(
                        (
                            SendTo::All,
                            ConnectionMessage::EnqueuePacket(Packet::PlayerDisconnected(*id)),
                        ),
                    );
                },
                _ => {},
            }
            assert(out@.map_values(|e: (SendTo, ConnectionMessage)| (e.0, e.1@)) =~= answers(
                inc.take(i + 1),
            ));
            i = i + 1;
        }
        assert(inc.take(incoming.len() as int) =~= inc);
        let ghost ans = out@.map_values(|e: (SendTo, ConnectionMessage)| (e.0, e.1@));
        // acknowledge everyone every second
        if ticks % 20 == 0 {
            out.push((SendTo::All, ConnectionMessage::EnqueuePacket(Packet::Okay)));
        }
        let ghost with_periodic = out@.map_values(|e: (SendTo, ConnectionMessage)| (e.0, e.1@));
        // disconnect everyone after fifteen seconds, and every fifteen after that
        if ticks % 300 == 0 && ticks != 0 {
            out.push((SendTo::All, ConnectionMessage::Disconnect));
        }
        proof {
            let periodic = if ticks % 20 == 0 {
                seq![(SendTo::All, ConnectionMessageView::EnqueuePacket(LoginPacketView::Okay))]
            } else {
                Seq::empty()
            };
            let closing = if ticks % 300 == 0 && ticks != 0 {
                seq![(SendTo::All, ConnectionMessageView::Disconnect)]
            } else {
                Seq::empty()
            };
            assert(with_periodic =~= ans + periodic);
            assert(out@.map_values(|e: (SendTo, ConnectionMessage)| (e.0, e.1@)) =~= ans + periodic
                + closing);
        }
        out
    }
}

/// Every fifteen seconds (300 ticks at 20 per second) a tick also falls on a
/// second, so everyone is acknowledged before being told to disconnect.
pub proof fn lemma_disconnect_follows_ack(ticks: u64, incoming: Seq<ConnectionMessageView>)
    requires
        ticks % 300 == 0,
        ticks != 0,
    ensures
        ({
            let out = tick_outcome(ticks, incoming);
            let n = out.len();
            &&& n >= 2
            &&& out[n - 1] == (SendTo::All, ConnectionMessageView::Disconnect)
            &&& out[n - 2] == (
                SendTo::All,
                ConnectionMessageView::EnqueuePacket(LoginPacketView::Okay),
            )
        }),
{
    assert(ticks % 20 == 0);
}

/// The news that a connection disconnected goes to everyone, ahead of the
/// tick's periodic messages.
pub proof fn lemma_disconnect_news_reaches_everyone(ticks: u64, j: u64)
    ensures
        tick_outcome(ticks, seq![ConnectionMessageView::Disconnected(j)])[0] == (
            SendTo::All,
            ConnectionMessageView::EnqueuePacket(LoginPacketView::PlayerDisconnected(j)),
        ),
{
    let inc = seq![ConnectionMessageView::Disconnected(j)];
    assert(inc.drop_last() =~= Seq::<ConnectionMessageView>::empty());
    assert(answers(inc.drop_last()) == Seq::<(SendTo, ConnectionMessageView)>::empty());
    assert(inc.last() == ConnectionMessageView::Disconnected(j));
    assert(answers(inc) =~= seq![
        (SendTo::All, ConnectionMessageView::EnqueuePacket(LoginPacketView::PlayerDisconnected(j))),
    ]);
}

/// With nothing received, a tick acknowledges everyone exactly on every 20th
/// tick (once a second at 20 ticks per second) and orders everyone to
/// disconnect exactly on every 300th tick after the first (every fifteen
/// seconds), the acknowledgement first; other ticks send nothing. A packet
/// received from a connection is acknowledged to that connection alone.
pub proof fn lemma_tick_schedule(ticks: u64, id: u64, p: LoginPacketView)
    ensures
        ({
            let out = tick_outcome(ticks, Seq::<ConnectionMessageView>::empty());
            let ack = (SendTo::All, ConnectionMessageView::EnqueuePacket(LoginPacketView::Okay));
            let bye = (SendTo::All, ConnectionMessageView::Disconnect);
            &&& (ticks % 20 != 0 && !(ticks % 300 == 0 && ticks != 0)) ==> out.len() == 0
            &&& (ticks % 20 == 0 && !(ticks % 300 == 0 && ticks != 0)) ==> out == seq![ack]
            &&& (ticks % 300 == 0 && ticks != 0) ==> out == seq![ack, bye]
        }),
        tick_outcome(ticks, seq![ConnectionMessageView::PacketReceived(id, p)])[0] == (
            SendTo::Id(id),
            ConnectionMessageView::EnqueuePacket(LoginPacketView::Okay),
        ),
{
    let e = Seq::<ConnectionMessageView>::empty();
    assert(answers(e) == Seq::<(SendTo, ConnectionMessageView)>::empty());
    let inc = seq![ConnectionMessageView::PacketReceived(id, p)];
    assert(inc.drop_last() =~= e);
    assert(inc.last() == ConnectionMessageView::PacketReceived(id, p));
    assert(answers(inc) =~= seq![
        (SendTo::Id(id), ConnectionMessageView::EnqueuePacket(LoginPacketView::Okay)),
    ]);
    if ticks % 300 == 0 {
        assert(ticks % 20 == 0);
    }
    let out = tick_outcome(ticks, e);
    if ticks % 300 == 0 && ticks != 0 {
        assert(out =~= seq![
            (SendTo::All, ConnectionMessageView::EnqueuePacket(LoginPacketView::Okay)),
            (SendTo::All, ConnectionMessageView::Disconnect),
        ]);
    } else if ticks % 20 == 0 {
        assert(out =~= seq![(SendTo::All, ConnectionMessageView::EnqueuePacket(LoginPacketView::Okay))]);
    }
}

} // verus!
