//! The hub: it keeps the table of open connections, decides what each incoming
//! message leads to, and whom an outgoing message reaches.
//!
//! The hub does no I/O itself: each handler returns the actions it decided on,
//! and the caller delivers them to the connections' and the game's channels.
use vstd::prelude::*;

use std::collections::HashMap;
use vstd::std_specs::iter::IteratorSpec;

use crate::server::messages::{
    ConnectionMessage, ConnectionMessageView, HubMessage, HubMessageView,
};
use crate::shared::packets::{Packet, PacketView};
use crate::shared::ConnId;
use crate::wire::text;

verus! {

broadcast use vstd::std_specs::hash::group_hash_axioms;

#[derive(Debug, Clone, Copy, PartialEq, Eq)]
pub enum ConnectionState {
    /// Before logging in
    Entry,
    /// After logging in
    LoggedIn,
}

#[derive(Clone, Copy, Debug, PartialEq, Eq)]
pub struct ConnectionDetails {
    pub _id: ConnId,
    pub state: ConnectionState,
}

pub struct HubOptions {
    pub port: u16,
}

/// Whom a message is sent to.
#[derive(Clone, Copy, Debug, PartialEq, Eq)]
pub enum SendTo {
    /// The connection with this id, if it is open.
    Id(ConnId),
    /// Every open connection.
    All,
    /// Every open connection in the given state.
    Matches(ConnectionState),
}

/// Why the hub could not handle a message.
#[derive(Clone, Copy, Debug, PartialEq, Eq)]
pub enum HubError {
    /// Attempted to get the connection of an id that is not registered.
    UnregisteredId(ConnId),
    /// A connection sent a message that only the hub sends.
    UnexpectedMessage,
}

/// What the hub decided to do.
#[derive(Debug, PartialEq, Eq)]
pub enum HubAction {
    /// Deliver the message to each of these connections.
    Send(Vec<ConnId>, ConnectionMessage),
    /// Deliver the message to the game.
    ToGame(HubMessage),
}

pub enum HubActionView {
    Send(Set<u64>, ConnectionMessageView),
    ToGame(HubMessageView),
}

impl View for HubAction {
    type V = HubActionView;

    open spec fn view(&self) -> HubActionView {
        match self {
            HubAction::Send(to, m) => HubActionView::Send(to@.to_set(), m@),
            HubAction::ToGame(m) => HubActionView::ToGame(m@),
        }
    }
}

/// No connection is named twice in a send.
pub open spec fn well_addressed(a: HubAction) -> bool {
    match a {
        HubAction::Send(to, _) => to@.no_duplicates(),
        HubAction::ToGame(_) => true,
    }
}

pub open spec fn actions_view(v: Seq<HubAction>) -> Seq<HubActionView> {
    v.map_values(|a: HubAction| a@)
}

pub open spec fn all_well_addressed(v: Seq<HubAction>) -> bool {
    forall|i: int| 0 <= i < v.len() ==> well_addressed(#[trigger] v[i])
}

// ---------------------------------------------------------------------------
// What the hub decides
// ---------------------------------------------------------------------------
/// The open connections that a send reaches.
pub open spec fn send_targets(conns: Map<u64, ConnectionDetails>, to: SendTo) -> Set<u64> {
    match to {
        SendTo::Id(id) => if conns.contains_key(id) {
            set![id]
        } else {
            Set::empty()
        },
        SendTo::All => conns.dom(),
        SendTo::Matches(s) => conns.dom().filter(|k: u64| conns[k].state == s),
    }
}

pub open spec fn send_view(
    conns: Map<u64, ConnectionDetails>,
    to: SendTo,
    m: ConnectionMessageView,
) -> HubActionView {
    HubActionView::Send(send_targets(conns, to), m)
}

/// The one account that logging in accepts.
pub open spec fn login_accepted(username: Seq<char>, password: Seq<char>) -> bool {
    username == "jon"@ && password == "123"@
}

/// The table after the connection `id`, if open, has logged in.
pub open spec fn logged_in(conns: Map<u64, ConnectionDetails>, id: u64) -> Map<
    u64,
    ConnectionDetails,
> {
    if conns.contains_key(id) {
        conns.insert(id, ConnectionDetails { _id: conns[id]._id, state: ConnectionState::LoggedIn })
    } else {
        conns
    }
}

/// A message from a connection that has not logged in: the new table and the actions.
pub open spec fn entry_outcome(conns: Map<u64, ConnectionDetails>, m: ConnectionMessageView) -> (
    Map<u64, ConnectionDetails>,
    Seq<HubActionView>,
) {
    match m {
        ConnectionMessageView::PacketReceived(id, PacketView::Login(username, password)) => {
            if username == "jon"@ {
                if password == "123"@ {
                    (
                        logged_in(conns, id),
                        seq![HubActionView::ToGame(HubMessageView::PlayerJoined(id, username))],
                    )
                } else {
                    (
                        conns,
                        seq![
                            send_view(
                                conns,
                                SendTo::Id(id),
                                ConnectionMessageView::SendPacket(
                                    PacketView::Deny("Incorrect password"@),
                                ),
                            ),
                        ],
                    )
                }
            } else {
                (
                    conns,
                    seq![
                        send_view(
                            conns,
                            SendTo::Id(id),
                            ConnectionMessageView::SendPacket(
                                PacketView::Deny("User does not exist"@),
                            ),
                        ),
                    ],
                )
            }
        },
        _ => (conns, seq![]),
    }
}

/// A message from a connection that has logged in: the actions.
pub open spec fn game_outcome(conns: Map<u64, ConnectionDetails>, m: ConnectionMessageView) -> Seq<
    HubActionView,
> {
    match m {
        ConnectionMessageView::PacketReceived(id, PacketView::Chat(s)) => seq![
            send_view(
                conns,
                SendTo::All,
                ConnectionMessageView::SendPacket(PacketView::ChatBroadcast(id, s)),
            ),
        ],
        ConnectionMessageView::PacketReceived(id, p) => seq![
            HubActionView::ToGame(HubMessageView::PacketFromClient(id, p)),
        ],
        ConnectionMessageView::Disconnected(id) => seq![
            HubActionView::ToGame(HubMessageView::PlayerLeft(id)),
            send_view(
                conns,
                SendTo::All,
                ConnectionMessageView::SendPacket(PacketView::PlayerDisconnected(id)),
            ),
        ],
        ConnectionMessageView::SendPacket(_) => seq![],
    }
}

/// A connection has finished: the game is told the player left, and every other
/// logged-in connection is told who disconnected. The connection need not be in
/// the table any more.
pub open spec fn disconnect_actions(conns: Map<u64, ConnectionDetails>, id: u64) -> Seq<
    HubActionView,
> {
    seq![
        HubActionView::ToGame(HubMessageView::PlayerLeft(id)),
        HubActionView::Send(
            send_targets(conns, SendTo::Matches(ConnectionState::LoggedIn)).remove(id),
            ConnectionMessageView::SendPacket(PacketView::PlayerDisconnected(id)),
        ),
    ]
}

/// Any message from a connection: the new table and the actions, or the error.
pub open spec fn connection_outcome(conns: Map<u64, ConnectionDetails>, m: ConnectionMessageView) -> Result<
    (Map<u64, ConnectionDetails>, Seq<HubActionView>),
    HubError,
> {
    match m {
        ConnectionMessageView::Disconnected(id) => Ok((conns, disconnect_actions(conns, id))),
        ConnectionMessageView::SendPacket(_) => Err(HubError::UnexpectedMessage),
        ConnectionMessageView::PacketReceived(id, _) => if !conns.contains_key(id) {
            Err(HubError::UnregisteredId(id))
        } else if conns[id].state == ConnectionState::Entry {
            Ok(entry_outcome(conns, m))
        } else {
            Ok((conns, game_outcome(conns, m)))
        },
    }
}

/// A message from the game: the actions.
pub open spec fn game_message_outcome(conns: Map<u64, ConnectionDetails>, m: HubMessageView) -> Seq<
    HubActionView,
> {
    match m {
        HubMessageView::SendTo(id, p) => seq![
            send_view(conns, SendTo::Id(id), ConnectionMessageView::SendPacket(p)),
        ],
        HubMessageView::Broadcast(p) => seq![
            send_view(conns, SendTo::All, ConnectionMessageView::SendPacket(p)),
        ],
        _ => seq![],
    }
}

// ---------------------------------------------------------------------------
// The hub
// ---------------------------------------------------------------------------
/// The ids without `id`.
fn without(v: Vec<ConnId>, id: ConnId) -> (r: Vec<ConnId>)
    requires
        v@.no_duplicates(),
    ensures
        r@.no_duplicates(),
        r@.to_set() == v@.to_set().remove(id),
{
    let mut out: Vec<ConnId> = Vec::new();
    let mut i: usize = 0;
    while i < v.len()
        invariant
            0 <= i <= v.len(),
            v@.no_duplicates(),
            out@.no_duplicates(),
            forall|x: u64| #[trigger] out@.contains(x) <==> (v@.take(i as int).contains(x) && x != id),
        decreases v.len() - i,
    {
        let k = v[i];
        let ghost before = out@;
        let ghost pre = v@.take(i as int);
        let ghost post = v@.take(i + 1);
        assert(post =~= pre.push(k));
        assert(!pre.contains(k)) by {
            if pre.contains(k) {
                let j = choose|j: int| 0 <= j < pre.len() && #[trigger] pre[j] == k;
                assert(v@[j] == v@[i as int]);
            }
        }
        if k != id {
            out.push(k);
            assert forall|a: int, b: int|
                0 <= a < out@.len() && 0 <= b < out@.len() && a != b implies out@[a] != out@[b] by {
                if a == before.len() {
                    assert(before.contains(out@[b]));
                } else if b == before.len() {
                    assert(before.contains(out@[a]));
                }
            }
        }
        assert forall|x: u64| #[trigger] out@.contains(x) <==> (post.contains(x) && x != id) by {
            if x == k {
                assert(post[i as int] == k);
                if k != id {
                    assert(out@[out@.len() - 1] == k);
                }
            } else {
                if post.contains(x) {
                    let j = choose|j: int| 0 <= j < post.len() && #[trigger] post[j] == x;
                    assert(pre[j] == x);
                }
                if before.contains(x) {
                    let j = choose|j: int| 0 <= j < before.len() && #[trigger] before[j] == x;
                    assert(out@[j] == x);
                }
                if out@.contains(x) {
                    let j = choose|j: int| 0 <= j < out@.len() && #[trigger] out@[j] == x;
                    assert(before[j] == x);
                }
                if pre.contains(x) {
                    let j = choose|j: int| 0 <= j < pre.len() && #[trigger] pre[j] == x;
                    assert(post[j] == x);
                }
            }
        }
        i = i + 1;
    }
    assert(v@.take(i as int) =~= v@);
    assert(out@.to_set() =~= v@.to_set().remove(id));
    out
}

pub struct Hub {
    opts: HubOptions,
    connections: HashMap<ConnId, ConnectionDetails>,
    /// The id given to the latest connection; 0 before the first.
    last_id: ConnId,
}

impl Hub {
    /// The open connections and their details.
    pub closed spec fn conns(&self) -> Map<u64, ConnectionDetails> {
        self.connections@
    }

    /// The id given to the latest connection; 0 before the first.
    pub closed spec fn last_id(&self) -> u64 {
        self.last_id
    }

    pub closed spec fn spec_port(&self) -> u16 {
        self.opts.port
    }

    /// Each open connection is recorded under its own id, and that id was
    /// given out already.
    pub open spec fn wf(&self) -> bool {
        forall|k: u64|
            #[trigger] self.conns().contains_key(k) ==> self.conns()[k]._id == k && 1 <= k
                <= self.last_id()
    }

    pub fn new(opts: HubOptions) -> (r: Hub)
        ensures
            r.wf(),
            r.conns() == Map::<u64, ConnectionDetails>::empty(),
            r.last_id() == 0,
            r.spec_port() == opts.port,
    {
        Hub { opts, connections: HashMap::new(), last_id: 0 }
    }

    /// The port the hub listens on.
    pub fn port(&self) -> (r: u16)
        ensures
            r == self.spec_port(),
    {
        self.opts.port
    }

    /// Gives a new connection the next id and records it as not logged in.
    pub fn register_connection(&mut self) -> (id: ConnId)
        requires
            old(self).wf(),
            old(self).last_id() < u64::MAX,
        ensures
            final(self).wf(),
            id == old(self).last_id() + 1,
            final(self).last_id() == id,
            !old(self).conns().contains_key(id),
            final(self).conns() == old(self).conns().insert(
                id,
                ConnectionDetails { _id: id, state: ConnectionState::Entry },
            ),
            final(self).spec_port() == old(self).spec_port(),
    {
        self.last_id = self.last_id + 1;
        let id = self.last_id;
        self.connections.insert(id, ConnectionDetails { _id: id, state: ConnectionState::Entry });
        id
    }

    /// Forgets a connection that has finished.
    pub fn remove_connection(&mut self, id: ConnId)
        requires
            old(self).wf(),
        ensures
            final(self).wf(),
            final(self).conns() == old(self).conns().remove(id),
            final(self).last_id() == old(self).last_id(),
            final(self).spec_port() == old(self).spec_port(),
    {
        self.connections.remove(&id);
    }

    /// Whether another connection can be given an id.
    pub fn can_register(&self) -> (r: bool)
        ensures
            r == (self.last_id() < u64::MAX),
    {
        self.last_id < u64::MAX
    }

    pub fn get_conn(&self, id: ConnId) -> (r: Result<ConnectionDetails, HubError>)
        ensures
            match r {
                Ok(d) => self.conns().contains_key(id) && d == self.conns()[id],
                Err(e) => !self.conns().contains_key(id) && e == HubError::UnregisteredId(id),
            },
    {
        match self.connections.get(&id) {
            None => Err(HubError::UnregisteredId(id)),
            Some(d) => Ok(*d),
        }
    }

    /// The ids of all open connections, each once.
    fn ids(&self) -> (r: Vec<ConnId>)
        ensures
            r@.to_set() == self.conns().dom(),
            r@.no_duplicates(),
    {
        let ghost keys = vstd::std_specs::hash::spec_keys_iter(&self.connections).remaining();
        let ghost mut idx: int = 0;
        let mut out: Vec<ConnId> = Vec::new();
        for k in it: self.connections.keys()
            invariant
                it.seq() == keys,
                idx == it.index(),
                out@ == keys.take(idx).unref(),
        {
            out.push(*k);
            proof {
                idx = idx + 1;
            }
            assert(keys.take(idx).unref() =~= out@);
        }
        assert(keys.take(idx) =~= keys);
        out
    }

    /// The open connections that match the state, or all of them.
    fn ids_where(&self, state: Option<ConnectionState>) -> (r: Vec<ConnId>)
        ensures
            r@.no_duplicates(),
            forall|k: u64|
                r@.contains(k) <==> (self.conns().contains_key(k) && match state {
                    Some(s) => self.conns()[k].state == s,
                    None => true,
                }),
    {
        let all = self.ids();
        let ghost m = self.conns();
        let mut out: Vec<ConnId> = Vec::new();
        let mut i: usize = 0;
        while i < all.len()
            invariant
                0 <= i <= all.len(),
                all@.to_set() == m.dom(),
                all@.no_duplicates(),
                m == self.conns(),
                out@.no_duplicates(),
                forall|x: u64|
                    #![trigger out@.contains(x)]
                    out@.contains(x) <==> (all@.take(i as int).contains(x) && m.contains_key(x)
                        && match state {
                        Some(s) => m[x].state == s,
                        None => true,
                    }),
            decreases all.len() - i,
        {
            let k = all[i];
            assert(all@.to_set().contains(k));
            let d = self.get_conn(k);
            let selected = match (d, state) {
                (Ok(d), Some(s)) => match (d.state, s) {
                    (ConnectionState::Entry, ConnectionState::Entry) => true,
                    (ConnectionState::LoggedIn, ConnectionState::LoggedIn) => true,
                    _ => false,
                },
                _ => true,
            };
            let ghost before = out@;
            let ghost pre = all@.take(i as int);
            let ghost post = all@.take(i + 1);
            assert(post =~= pre.push(k));
            assert(!pre.contains(k)) by {
                if pre.contains(k) {
                    let j = choose|j: int| 0 <= j < pre.len() && #[trigger] pre[j] == k;
                    assert(all@[j] == all@[i as int]);
                }
            }
            if selected {
                out.push(k);
                assert forall|a: int, b: int|
                    0 <= a < out@.len() && 0 <= b < out@.len() && a != b implies out@[a]
                    != out@[b] by {
                    if a == before.len() {
                        assert(before.contains(out@[b]));
                    } else if b == before.len() {
                        assert(before.contains(out@[a]));
                    }
                }
            }
            assert forall|x: u64|
                #![trigger out@.contains(x)]
                out@.contains(x) <==> (post.contains(x) && m.contains_key(x) && match state {
                    Some(s) => m[x].state == s,
                    None => true,
                }) by {
                if x == k {
                    assert(post[i as int] == k);
                    if selected {
                        assert(out@[out@.len() - 1] == k);
                    }
                } else {
                    if post.contains(x) {
                        let j = choose|j: int| 0 <= j < post.len() && #[trigger] post[j] == x;
                        assert(pre[j] == x);
                    }
                    if before.contains(x) {
                        let j = choose|j: int| 0 <= j < before.len() && #[trigger] before[j] == x;
                        assert(out@[j] == x);
                    }
                    if out@.contains(x) {
                        let j = choose|j: int| 0 <= j < out@.len() && #[trigger] out@[j] == x;
                        assert(before[j] == x);
                    }
                    if pre.contains(x) {
                        let j = choose|j: int| 0 <= j < pre.len() && #[trigger] pre[j] == x;
                        assert(post[j] == x);
                    }
                }
            }
            i = i + 1;
            assert(all@.take(i as int) == post);
        }
        assert(all@.take(i as int) =~= all@);
        assert forall|x: u64| all@.contains(x) <==> m.contains_key(x) by {
            assert(all@.to_set().contains(x) <==> all@.contains(x));
        }
        out
    }

    /// Whom a message reaches, and the message.
    pub fn send_msg(&self, to: SendTo, msg: ConnectionMessage) -> (r: HubAction)
        ensures
            r@ == send_view(self.conns(), to, msg@),
            well_addressed(r),
    {
        let targets = match to {
            SendTo::Id(id) => if self.connections.contains_key(&id) {
                let v = vec![id];
                assert(v@.to_set() =~= set![id]) by {
                    assert(v@.contains(id));
                }
                v
            } else {
                let v: Vec<ConnId> = Vec::new();
                assert(v@.to_set() =~= Set::<u64>::empty());
                v
            },
            SendTo::All => {
                let v = self.ids_where(None);
                assert(v@.to_set() =~= self.conns().dom());
                v
            },
            SendTo::Matches(s) => {
                let v = self.ids_where(Some(s));
                assert(v@.to_set() =~= self.conns().dom().filter(
                    |k: u64| self.conns()[k].state == s,
                ));
                v
            },
        };
        HubAction::Send(targets, msg)
    }

    pub fn handle_connection_entry_message(&mut self, msg: ConnectionMessage) -> (r: Vec<HubAction>)
        requires
            old(self).wf(),
        ensures
            final(self).wf(),
            (final(self).conns(), actions_view(r@)) == entry_outcome(old(self).conns(), msg@),
            all_well_addressed(r@),
            final(self).last_id() == old(self).last_id(),
            final(self).spec_port() == old(self).spec_port(),
    {
        let ghost m = msg@;
        match msg {
            ConnectionMessage::PacketReceived(id, packet) => match packet {
                Packet::Login(username, password) => {
                    // DEBUG USER:
                    if username == text("jon") {
                        if password == text("123") {
                            // success! set state to game
                            if let Some(entry) = self.connections.get(&id) {
                                let updated = ConnectionDetails {
                                    _id: entry._id,
                                    state: ConnectionState::LoggedIn,
                                };
                                self.connections.insert(id, updated);
                            }
                            // tell the game to set up the player
                            let r = vec![HubAction::ToGame(HubMessage::PlayerJoined(id, username))];
                            assert(actions_view(r@) =~= entry_outcome(old(self).conns(), m).1);
                            r
                        } else {
                            let a = self.send_msg(
                                SendTo::Id(id),
                                ConnectionMessage::SendPacket(
                                    Packet::Deny(text("Incorrect password")),
                                ),
                            );
                            let r = vec![a];
                            assert(actions_view(r@) =~= entry_outcome(old(self).conns(), m).1);
                            r
                        }
                    } else {
                        let a = self.send_msg(
                            SendTo::Id(id),
                            ConnectionMessage::SendPacket(Packet::Deny(text("User does not exist"))),
                        );
                        let r = vec![a];
                        assert(actions_view(r@) =~= entry_outcome(old(self).conns(), m).1);
                        r
                    }
                },
                _ => {
                    let r: Vec<HubAction> = Vec::new();
                    assert(actions_view(r@) =~= entry_outcome(old(self).conns(), m).1);
                    r
                },
            },
            _ => {
                let r: Vec<HubAction> = Vec::new();
                assert(actions_view(r@) =~= entry_outcome(old(self).conns(), m).1);
                r
            },
        }
    }

    pub fn handle_connection_game_message(&self, msg: ConnectionMessage) -> (r: Vec<HubAction>)
        ensures
            actions_view(r@) == game_outcome(self.conns(), msg@),
            all_well_addressed(r@),
    {
        let ghost m = msg@;
        match msg {
            ConnectionMessage::PacketReceived(id, packet) => match packet {
                Packet::Chat(s) => {
                    // broadcast the received chat to all connections
                    let a = self.send_msg(
                        SendTo::All,
                        ConnectionMessage::SendPacket(Packet::ChatBroadcast(id, s)),
                    );
                    let r = vec![a];
                    assert(actions_view(r@) =~= game_outcome(self.conns(), m));
                    r
                },
                p => {
                    // just forward all other packets directly to the game to handle
                    let r = vec![HubAction::ToGame(HubMessage::PacketFromClient(id, p))];
                    assert(actions_view(r@) =~= game_outcome(self.conns(), m));
                    r
                },
            },
            ConnectionMessage::Disconnected(id) => {
                // forward to the game to clean up, then tell everyone
                let a = self.send_msg(
                    SendTo::All,
                    ConnectionMessage::SendPacket(Packet::PlayerDisconnected(id)),
                );
                let r = vec![HubAction::ToGame(HubMessage::PlayerLeft(id)), a];
                assert(actions_view(r@) =~= game_outcome(self.conns(), m));
                r
            },
            ConnectionMessage::SendPacket(_) => {
                let r: Vec<HubAction> = Vec::new();
                assert(actions_view(r@) =~= game_outcome(self.conns(), m));
                r
            },
        }
    }

    pub fn handle_connection_message(&mut self, msg: ConnectionMessage) -> (r: Result<
        Vec<HubAction>,
        HubError,
    >)
        requires
            old(self).wf(),
        ensures
            final(self).wf(),
            final(self).last_id() == old(self).last_id(),
            final(self).spec_port() == old(self).spec_port(),
            match (r, connection_outcome(old(self).conns(), msg@)) {
                (Ok(v), Ok((c, a))) => final(self).conns() == c && actions_view(v@) == a
                    && all_well_addressed(v@),
                (Err(e), Err(e2)) => e == e2 && final(self).conns() == old(self).conns(),
                _ => false,
            },
    {
        let ghost m = msg@;
        let conn_id = match &msg {
            ConnectionMessage::Disconnected(id) => {
                // the connection is probably gone from the table already, so
                // its state is not looked up
                let id = *id;
                let logged_in = self.ids_where(Some(ConnectionState::LoggedIn));
                let others = without(logged_in, id);
                let r = vec![
                    HubAction::ToGame(HubMessage::PlayerLeft(id)),
                    HubAction::Send(
                        others,
                        ConnectionMessage::SendPacket(Packet::PlayerDisconnected(id)),
                    ),
                ];
                assert(send_targets(self.conns(), SendTo::Matches(ConnectionState::LoggedIn)).remove(
                    id,
                ) =~= r@[1]->Send_0@.to_set());
                assert(actions_view(r@) =~= connection_outcome(old(self).conns(), m)->Ok_0.1);
                return Ok(r);
            },
            ConnectionMessage::PacketReceived(id, _) => *id,
            ConnectionMessage::SendPacket(_) => {
                return Err(HubError::UnexpectedMessage);
            },
        };
        let state = match self.get_conn(conn_id) {
            Ok(d) => d.state,
            Err(e) => return Err(e),
        };
        match state {
            ConnectionState::Entry => Ok(self.handle_connection_entry_message(msg)),
            ConnectionState::LoggedIn => Ok(self.handle_connection_game_message(msg)),
        }
    }

    pub fn handle_game_message(&self, msg: HubMessage) -> (r: Vec<HubAction>)
        ensures
            actions_view(r@) == game_message_outcome(self.conns(), msg@),
            all_well_addressed(r@),
    {
        let ghost m = msg@;
        match msg {
            HubMessage::SendTo(id, pkt) => {
                let r = vec![self.send_msg(SendTo::Id(id), ConnectionMessage::SendPacket(pkt))];
                assert(actions_view(r@) =~= game_message_outcome(self.conns(), m));
                r
            },
            HubMessage::Broadcast(pkt) => {
                let r = vec![self.send_msg(SendTo::All, ConnectionMessage::SendPacket(pkt))];
                assert(actions_view(r@) =~= game_message_outcome(self.conns(), m));
                r
            },
            _ => {
                let r: Vec<HubAction> = Vec::new();
                assert(actions_view(r@) =~= game_message_outcome(self.conns(), m));
                r
            },
        }
    }
}

// ---------------------------------------------------------------------------
// Laws
// ---------------------------------------------------------------------------
/// A login from a connection that has not logged in succeeds exactly for the
/// known account: the connection is then logged in and the game is told of
/// the player; otherwise it stays where it was and is sent a refusal.
pub proof fn lemma_login_succeeds_iff(
    conns: Map<u64, ConnectionDetails>,
    id: u64,
    username: Seq<char>,
    password: Seq<char>,
)
    requires
        conns.contains_key(id),
        conns[id].state == ConnectionState::Entry,
    ensures
        ({
            let m = ConnectionMessageView::PacketReceived(id, PacketView::Login(username, password));
            let (c2, acts) = connection_outcome(conns, m)->Ok_0;
            let ok = username == "jon"@ && password == "123"@;
            &&& connection_outcome(conns, m) is Ok
            &&& c2.dom() == conns.dom()
            &&& (c2[id].state == ConnectionState::LoggedIn <==> ok)
            &&& c2[id]._id == conns[id]._id
            &&& forall|k: u64| #[trigger] conns.contains_key(k) && k != id ==> c2[k] == conns[k]
            &&& (ok ==> acts == seq![
                HubActionView::ToGame(HubMessageView::PlayerJoined(id, username)),
            ])
            &&& (username != "jon"@ ==> acts == seq![
                HubActionView::Send(
                    set![id],
                    ConnectionMessageView::SendPacket(PacketView::Deny("User does not exist"@)),
                ),
            ])
            &&& (username == "jon"@ && password != "123"@ ==> acts == seq![
                HubActionView::Send(
                    set![id],
                    ConnectionMessageView::SendPacket(PacketView::Deny("Incorrect password"@)),
                ),
            ])
        }),
{
    let m = ConnectionMessageView::PacketReceived(id, PacketView::Login(username, password));
    let c2 = connection_outcome(conns, m)->Ok_0.0;
    if username == "jon"@ && password == "123"@ {
        assert(c2.dom() =~= conns.dom());
    }
}

/// A logged-in player's packets other than chat go to the game unchanged,
/// naming the player's connection, and change nothing in the hub.
pub proof fn lemma_logged_in_packets_forwarded(
    conns: Map<u64, ConnectionDetails>,
    id: u64,
    p: PacketView,
)
    requires
        !(p is Chat),
    ensures
        game_outcome(conns, ConnectionMessageView::PacketReceived(id, p)) == seq![
            HubActionView::ToGame(HubMessageView::PacketFromClient(id, p)),
        ],
        conns.contains_key(id) && conns[id].state == ConnectionState::LoggedIn ==> connection_outcome(
            conns,
            ConnectionMessageView::PacketReceived(id, p),
        ) == Ok::<_, HubError>(
            (conns, seq![HubActionView::ToGame(HubMessageView::PacketFromClient(id, p))]),
        ),
{
}

/// Before logging in, a connection's packets other than a login do nothing.
pub proof fn lemma_entry_ignores_other_packets(
    conns: Map<u64, ConnectionDetails>,
    id: u64,
    p: PacketView,
)
    requires
        conns.contains_key(id),
        conns[id].state == ConnectionState::Entry,
        !(p is Login),
    ensures
        connection_outcome(conns, ConnectionMessageView::PacketReceived(id, p)) == Ok::<
            _,
            HubError,
        >((conns, Seq::<HubActionView>::empty())),
{
}

/// A chat from a logged-in connection is broadcast to every open connection,
/// naming its sender, and changes nothing else.
pub proof fn lemma_chat_reaches_everyone(
    conns: Map<u64, ConnectionDetails>,
    id: u64,
    text: Seq<char>,
)
    requires
        conns.contains_key(id),
        conns[id].state == ConnectionState::LoggedIn,
    ensures
        connection_outcome(conns, ConnectionMessageView::PacketReceived(id, PacketView::Chat(text)))
            == Ok::<_, HubError>(
            (
                conns,
                seq![
                    HubActionView::Send(
                        conns.dom(),
                        ConnectionMessageView::SendPacket(PacketView::ChatBroadcast(id, text)),
                    ),
                ],
            ),
        ),
{
}

/// A packet from a connection that is not registered is refused, whatever it
/// holds.
pub proof fn lemma_unregistered_refused(
    conns: Map<u64, ConnectionDetails>,
    id: u64,
    p: PacketView,
)
    requires
        !conns.contains_key(id),
    ensures
        connection_outcome(conns, ConnectionMessageView::PacketReceived(id, p)) == Err::<
            (Map<u64, ConnectionDetails>, Seq<HubActionView>),
            _,
        >(HubError::UnregisteredId(id)),
{
}

/// When a connection finishes, the game is told the player left, and the news
/// of who disconnected reaches exactly the other connections that have logged in.
pub proof fn lemma_disconnect_reaches_logged_in(conns: Map<u64, ConnectionDetails>, id: u64)
    ensures
        ({
            let (c2, acts) = connection_outcome(conns, ConnectionMessageView::Disconnected(id))->Ok_0;
            &&& c2 == conns
            &&& acts.len() == 2
            &&& acts[0] == HubActionView::ToGame(HubMessageView::PlayerLeft(id))
            &&& (acts[1] matches HubActionView::Send(
                to,
                ConnectionMessageView::SendPacket(PacketView::PlayerDisconnected(d)),
            ) && d == id && forall|k: u64|
                to.contains(k) <==> k != id && conns.contains_key(k) && conns[k].state
                    == ConnectionState::LoggedIn)
        }),
{
}

/// Handling a message from a connection never opens or closes a connection,
/// and only a login changes a connection's state.
pub proof fn lemma_handling_keeps_connections(
    conns: Map<u64, ConnectionDetails>,
    m: ConnectionMessageView,
)
    requires
        connection_outcome(conns, m) is Ok,
    ensures
        connection_outcome(conns, m)->Ok_0.0.dom() == conns.dom(),
        !(m matches ConnectionMessageView::PacketReceived(_, PacketView::Login(_, _)))
            ==> connection_outcome(conns, m)->Ok_0.0 == conns,
{
    if let ConnectionMessageView::PacketReceived(id, PacketView::Login(u, p)) = m {
        if conns[id].state == ConnectionState::Entry && login_accepted(u, p) {
            assert(logged_in(conns, id).dom() =~= conns.dom());
        }
    }
}

/// What the game sends to one connection reaches it exactly when it is open;
/// what it broadcasts reaches every open connection.
pub proof fn lemma_game_messages_delivered(conns: Map<u64, ConnectionDetails>, id: u64, p: PacketView)
    ensures
        game_message_outcome(conns, HubMessageView::SendTo(id, p)) == seq![
            HubActionView::Send(
                if conns.contains_key(id) {
                    set![id]
                } else {
                    Set::empty()
                },
                ConnectionMessageView::SendPacket(p),
            ),
        ],
        game_message_outcome(conns, HubMessageView::Broadcast(p)) == seq![
            HubActionView::Send(conns.dom(), ConnectionMessageView::SendPacket(p)),
        ],
{
}

} // verus!
