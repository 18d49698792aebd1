use moonlapse::legacy::connection::{Connection, ConnectionMessage, ConnectionStep, ReadOutcome};
use moonlapse::legacy::game::messages::GameMessage;
use moonlapse::legacy::game::{Game, GameOptions};
use moonlapse::legacy::hub::{Hub, HubOptions, SendTo};
use moonlapse::legacy::net::packets::{Component, Direction, Packet as NetPacket};
use moonlapse::legacy::net::serializers::flexbuffers;
use moonlapse::legacy::packets::Packet;
use moonlapse::legacy::serializers::msgpack;
use moonlapse::shared::components::{Player, Position};
use moonlapse::shared::serializers::json::MalformedPacket;
use moonlapse::shared::WorldSnapshot;
use moonlapse::wire::WireValue;

#[test]
fn login_packets_read_back() {
    let ps = vec![
        Packet::Id(1),
        Packet::Okay,
        Packet::Deny,
        Packet::PlayerDisconnected(4),
        Packet::Register("a".to_string(), "b".to_string()),
        Packet::Login("c".to_string(), "d".to_string()),
    ];
    for p in ps {
        assert_eq!(msgpack::deserialize(&msgpack::serialize(&p)), Ok(p.clone()));
    }
    assert_eq!(msgpack::serialize(&Packet::Deny), WireValue::Str("Deny".to_string()));
    assert_eq!(
        msgpack::deserialize(&WireValue::Object(vec![("Deny".to_string(), WireValue::Str("x".to_string()))])),
        Err(MalformedPacket)
    );
}

#[test]
fn game_packets_read_back() {
    let ps = vec![
        NetPacket::Id(1),
        NetPacket::Okay,
        NetPacket::Deny,
        NetPacket::PlayerDisconnected(3),
        NetPacket::Register("a".to_string(), "b".to_string()),
        NetPacket::Login("c".to_string(), "d".to_string()),
        NetPacket::Chat("e".to_string()),
        NetPacket::ChatBroadcast(2, "f".to_string()),
        NetPacket::Translate(Direction::Right),
        NetPacket::ComponentUpdate(1, Component::Position(Position { x: -1, y: 1 })),
        NetPacket::WorldSnapshot(WorldSnapshot { players: vec![(1, Player { id: 1 })], positions: vec![] }),
    ];
    for p in ps {
        assert_eq!(flexbuffers::deserialize(&flexbuffers::serialize(&p)), Ok(p.clone()));
    }
    assert_eq!(flexbuffers::deserialize(&WireValue::UInt(3)), Err(MalformedPacket));
}

#[test]
fn legacy_players_move_one_step() {
    let mut g = Game::new(GameOptions { tick_rate: 20 });
    assert_eq!(g.tick_rate(), 20);
    let out = g.handle_message(GameMessage::ClientConnected(5));
    assert_eq!(out.len(), 2);
    let eid = match &out[0] {
        GameMessage::Broadcast(NetPacket::ComponentUpdate(e, Component::Position(p))) => {
            assert_eq!(*p, Position { x: 0, y: 0 });
            *e
        }
        other => panic!("unexpected {:?}", other),
    };
    assert_eq!(out[1], GameMessage::Broadcast(NetPacket::ComponentUpdate(eid, Component::Player(Player { id: 5 }))));
    let m = GameMessage::PacketFromClient(5, NetPacket::Translate(Direction::Down));
    assert!(g.can_handle(&m));
    let out = g.handle_message(m);
    assert_eq!(out, vec![GameMessage::Broadcast(NetPacket::ComponentUpdate(eid, Component::Position(Position { x: 0, y: -1 })))]);
    let out = g.translate_player(5, 3, 4);
    assert_eq!(out, vec![GameMessage::Broadcast(NetPacket::ComponentUpdate(eid, Component::Position(Position { x: 3, y: 3 })))]);
    assert!(g.translate_player(6, 1, 1).is_empty());
    assert!(g.handle_message(GameMessage::ClientDisconnected(5)).is_empty());
    assert!(g.translate_player(5, 1, 1).is_empty());
    assert!(g.handle_message(GameMessage::Broadcast(NetPacket::Okay)).is_empty());
}

#[test]
fn outbox_collects_and_writes() {
    let mut c = Connection::new(7);
    c.greet();
    assert_eq!(c.on_hub_message(ConnectionMessage::EnqueuePacket(Packet::Okay)), ConnectionStep::Continue);
    assert_eq!(c.on_broadcast_message(ConnectionMessage::SendPackets), ConnectionStep::Write(vec![Packet::Id(7), Packet::Okay]));
    // each queued packet is written once: the outbox is empty after writing
    assert_eq!(c.on_broadcast_message(ConnectionMessage::SendPackets), ConnectionStep::Write(vec![]));
    assert_eq!(c.on_broadcast_message(ConnectionMessage::EnqueuePacket(Packet::Deny)), ConnectionStep::Continue);
    assert_eq!(c.on_broadcast_message(ConnectionMessage::SendPackets), ConnectionStep::Write(vec![Packet::Deny]));
    assert_eq!(c.on_hub_message(ConnectionMessage::SendPackets), ConnectionStep::Continue);
    assert_eq!(c.on_broadcast_message(ConnectionMessage::Disconnect), ConnectionStep::Stop);
    assert_eq!(c.on_hub_message(ConnectionMessage::Disconnect), ConnectionStep::Stop);
}

#[test]
fn legacy_reads() {
    let c = Connection::new(2);
    assert_eq!(c.on_read(0, None), ReadOutcome::Closed);
    assert_eq!(c.on_read(3, None), ReadOutcome::Malformed);
    let w = msgpack::serialize(&Packet::Login("a".to_string(), "b".to_string()));
    assert_eq!(
        c.on_read(10, Some(&w)),
        ReadOutcome::Forward(ConnectionMessage::PacketReceived(2, Packet::Login("a".to_string(), "b".to_string())))
    );
    assert_eq!(c.on_read(10, Some(&WireValue::Null)), ReadOutcome::Malformed);
}

#[test]
fn legacy_hub_ticks() {
    let mut hub = Hub::new(HubOptions { tick_rate: 20, port: 1 });
    assert_eq!(hub.register_connection(), 1);
    assert_eq!(hub.register_connection(), 2);
    assert_eq!(hub.tick_rate(), 20);
    assert_eq!(hub.port(), 1);
    let out = hub.tick(1, vec![ConnectionMessage::PacketReceived(2, Packet::Okay), ConnectionMessage::SendPackets]);
    assert_eq!(out, vec![(SendTo::Id(2), ConnectionMessage::EnqueuePacket(Packet::Okay))]);
    let out = hub.tick(40, vec![]);
    assert_eq!(out, vec![(SendTo::All, ConnectionMessage::EnqueuePacket(Packet::Okay))]);
    let out = hub.tick(600, vec![]);
    assert_eq!(out, vec![(SendTo::All, ConnectionMessage::EnqueuePacket(Packet::Okay)), (SendTo::All, ConnectionMessage::Disconnect)]);
    assert!(hub.tick(7, vec![]).is_empty());
    // the first tick acknowledges everyone but disconnects no one
    assert_eq!(hub.tick(0, vec![]), vec![(SendTo::All, ConnectionMessage::EnqueuePacket(Packet::Okay))]);
}

#[test]
fn legacy_checked_moves() {
    let mut g = Game::new(GameOptions { tick_rate: 20 });
    let out = g.try_handle_message(GameMessage::ClientConnected(1)).unwrap();
    let eid = match &out[0] {
        GameMessage::Broadcast(NetPacket::ComponentUpdate(e, _)) => *e,
        other => panic!("unexpected {:?}", other),
    };
    assert!(g.can_translate(1, 127, -128));
    assert_eq!(
        g.try_translate_player(1, 127, -128),
        Some(vec![GameMessage::Broadcast(NetPacket::ComponentUpdate(eid, Component::Position(Position { x: 127, y: -128 })))])
    );
    assert_eq!(
        g.try_handle_message(GameMessage::PacketFromClient(1, NetPacket::Translate(Direction::Left))),
        Some(vec![GameMessage::Broadcast(NetPacket::ComponentUpdate(eid, Component::Position(Position { x: 126, y: -128 })))])
    );
    // unknown connections move nothing and always fit
    assert!(g.can_translate(9, 127, 127));
    assert_eq!(g.try_translate_player(9, 127, 127), Some(vec![]));
}

#[test]
fn legacy_hub_broadcasts_disconnections_and_keeps_its_table() {
    let mut hub = Hub::new(HubOptions { tick_rate: 20, port: 1 });
    let a = hub.register_connection();
    let b = hub.register_connection();
    assert!(hub.is_open(a) && hub.is_open(b));
    assert!(!hub.is_open(3));
    hub.remove_connection(b);
    assert!(!hub.is_open(b));
    assert!(hub.is_open(a));
    let out = hub.tick(
        7,
        vec![
            ConnectionMessage::Disconnected(b),
            ConnectionMessage::PacketReceived(a, Packet::Okay),
        ],
    );
    assert_eq!(
        out,
        vec![
            (SendTo::All, ConnectionMessage::EnqueuePacket(Packet::PlayerDisconnected(b))),
            (SendTo::Id(a), ConnectionMessage::EnqueuePacket(Packet::Okay)),
        ]
    );
    // a connection ignores the message meant for the hub
    let mut c = Connection::new(a);
    assert_eq!(c.on_hub_message(ConnectionMessage::Disconnected(b)), ConnectionStep::Continue);
}
