use moonlapse::server::hub::{
    ConnectionDetails, ConnectionState, Hub, HubAction, HubError, HubOptions, SendTo,
};
use moonlapse::server::messages::{ConnectionMessage, HubMessage};
use moonlapse::shared::packets::Packet;

fn sorted(mut v: Vec<u64>) -> Vec<u64> {
    v.sort();
    v
}

fn login(hub: &mut Hub, id: u64, user: &str, pass: &str) -> Vec<HubAction> {
    hub.handle_connection_message(ConnectionMessage::PacketReceived(
        id,
        Packet::Login(user.to_string(), pass.to_string()),
    ))
    .unwrap()
}

#[test]
fn connections_are_numbered_from_one() {
    let mut hub = Hub::new(HubOptions { port: 42523 });
    assert_eq!(hub.port(), 42523);
    assert_eq!(hub.register_connection(), 1);
    assert_eq!(hub.register_connection(), 2);
    assert_eq!(
        hub.get_conn(2),
        Ok(ConnectionDetails { _id: 2, state: ConnectionState::Entry })
    );
    assert!(hub.can_register());
}

#[test]
fn unknown_connection_is_refused() {
    let mut hub = Hub::new(HubOptions { port: 0 });
    assert_eq!(hub.get_conn(9), Err(HubError::UnregisteredId(9)));
    let r = hub.handle_connection_message(ConnectionMessage::PacketReceived(9, Packet::Okay));
    assert_eq!(r, Err(HubError::UnregisteredId(9)));
}

#[test]
fn hub_only_messages_from_a_connection_are_refused() {
    let mut hub = Hub::new(HubOptions { port: 0 });
    hub.register_connection();
    let r = hub.handle_connection_message(ConnectionMessage::SendPacket(Packet::Okay));
    assert_eq!(r, Err(HubError::UnexpectedMessage));
}

#[test]
fn unknown_user_is_denied() {
    let mut hub = Hub::new(HubOptions { port: 0 });
    let id = hub.register_connection();
    let acts = login(&mut hub, id, "ann", "123");
    assert_eq!(
        acts,
        vec![HubAction::Send(
            vec![id],
            ConnectionMessage::SendPacket(Packet::Deny("User does not exist".to_string()))
        )]
    );
    assert_eq!(hub.get_conn(id).unwrap().state, ConnectionState::Entry);
}

#[test]
fn wrong_password_is_denied() {
    let mut hub = Hub::new(HubOptions { port: 0 });
    let id = hub.register_connection();
    let acts = login(&mut hub, id, "jon", "124");
    assert_eq!(
        acts,
        vec![HubAction::Send(
            vec![id],
            ConnectionMessage::SendPacket(Packet::Deny("Incorrect password".to_string()))
        )]
    );
    assert_eq!(hub.get_conn(id).unwrap().state, ConnectionState::Entry);
}

#[test]
fn right_login_joins_the_game() {
    let mut hub = Hub::new(HubOptions { port: 0 });
    let id = hub.register_connection();
    let acts = login(&mut hub, id, "jon", "123");
    assert_eq!(acts, vec![HubAction::ToGame(HubMessage::PlayerJoined(id, "jon".to_string()))]);
    assert_eq!(hub.get_conn(id).unwrap().state, ConnectionState::LoggedIn);
}

#[test]
fn entry_ignores_other_packets() {
    let mut hub = Hub::new(HubOptions { port: 0 });
    let id = hub.register_connection();
    let r = hub
        .handle_connection_message(ConnectionMessage::PacketReceived(id, Packet::Chat("x".to_string())))
        .unwrap();
    assert!(r.is_empty());
    let r = hub
        .handle_connection_message(ConnectionMessage::PacketReceived(
            id,
            Packet::Register("a".to_string(), "b".to_string()),
        ))
        .unwrap();
    assert!(r.is_empty());
}

#[test]
fn chat_is_broadcast_to_everyone() {
    let mut hub = Hub::new(HubOptions { port: 0 });
    let a = hub.register_connection();
    let b = hub.register_connection();
    login(&mut hub, a, "jon", "123");
    let acts = hub
        .handle_connection_message(ConnectionMessage::PacketReceived(a, Packet::Chat("hello".to_string())))
        .unwrap();
    assert_eq!(acts.len(), 1);
    match &acts[0] {
        HubAction::Send(to, msg) => {
            assert_eq!(sorted(to.clone()), vec![a, b]);
            assert_eq!(
                msg,
                &ConnectionMessage::SendPacket(Packet::ChatBroadcast(a, "hello".to_string()))
            );
        }
        other => panic!("unexpected {:?}", other),
    }
}

#[test]
fn logged_in_packets_go_to_the_game() {
    let mut hub = Hub::new(HubOptions { port: 0 });
    let a = hub.register_connection();
    login(&mut hub, a, "jon", "123");
    let acts = hub
        .handle_connection_message(ConnectionMessage::PacketReceived(a, Packet::Okay))
        .unwrap();
    assert_eq!(acts, vec![HubAction::ToGame(HubMessage::PacketFromClient(a, Packet::Okay))]);
}

#[test]
fn disconnect_news_reaches_logged_in_only() {
    let mut hub = Hub::new(HubOptions { port: 0 });
    let a = hub.register_connection();
    let b = hub.register_connection();
    let c = hub.register_connection();
    login(&mut hub, a, "jon", "123");
    login(&mut hub, c, "jon", "123");
    hub.remove_connection(b);
    let acts = hub.handle_connection_message(ConnectionMessage::Disconnected(b)).unwrap();
    assert_eq!(acts.len(), 2);
    assert_eq!(acts[0], HubAction::ToGame(HubMessage::PlayerLeft(b)));
    match &acts[1] {
        HubAction::Send(to, msg) => {
            assert_eq!(sorted(to.clone()), vec![a, c]);
            assert_eq!(msg, &ConnectionMessage::SendPacket(Packet::PlayerDisconnected(b)));
        }
        other => panic!("unexpected {:?}", other),
    }
    // a logged-in connection that is still in the table is not told of itself
    let acts = hub.handle_connection_message(ConnectionMessage::Disconnected(a)).unwrap();
    match &acts[1] {
        HubAction::Send(to, _) => assert_eq!(to, &vec![c]),
        other => panic!("unexpected {:?}", other),
    }
}

#[test]
fn logged_in_disconnect_tells_game_and_everyone() {
    let mut hub = Hub::new(HubOptions { port: 0 });
    let a = hub.register_connection();
    let b = hub.register_connection();
    let acts = hub.handle_connection_game_message(ConnectionMessage::Disconnected(a));
    assert_eq!(acts.len(), 2);
    assert_eq!(acts[0], HubAction::ToGame(HubMessage::PlayerLeft(a)));
    match &acts[1] {
        HubAction::Send(to, msg) => {
            assert_eq!(sorted(to.clone()), vec![a, b]);
            assert_eq!(msg, &ConnectionMessage::SendPacket(Packet::PlayerDisconnected(a)));
        }
        other => panic!("unexpected {:?}", other),
    }
}

#[test]
fn game_messages_are_addressed() {
    let mut hub = Hub::new(HubOptions { port: 0 });
    let a = hub.register_connection();
    let b = hub.register_connection();
    let acts = hub.handle_game_message(HubMessage::SendTo(b, Packet::Okay));
    assert_eq!(acts, vec![HubAction::Send(vec![b], ConnectionMessage::SendPacket(Packet::Okay))]);
    let acts = hub.handle_game_message(HubMessage::SendTo(77, Packet::Okay));
    assert_eq!(acts, vec![HubAction::Send(vec![], ConnectionMessage::SendPacket(Packet::Okay))]);
    let acts = hub.handle_game_message(HubMessage::Broadcast(Packet::Id(1)));
    match &acts[0] {
        HubAction::Send(to, _) => assert_eq!(sorted(to.clone()), vec![a, b]),
        other => panic!("unexpected {:?}", other),
    }
    assert!(hub.handle_game_message(HubMessage::PlayerLeft(a)).is_empty());
}

#[test]
fn send_msg_targets() {
    let mut hub = Hub::new(HubOptions { port: 0 });
    let a = hub.register_connection();
    let b = hub.register_connection();
    login(&mut hub, b, "jon", "123");
    let m = || ConnectionMessage::SendPacket(Packet::Okay);
    assert_eq!(hub.send_msg(SendTo::Id(a), m()), HubAction::Send(vec![a], m()));
    assert_eq!(
        hub.send_msg(SendTo::Matches(ConnectionState::LoggedIn), m()),
        HubAction::Send(vec![b], m())
    );
    assert_eq!(
        hub.send_msg(SendTo::Matches(ConnectionState::Entry), m()),
        HubAction::Send(vec![a], m())
    );
    hub.remove_connection(a);
    assert_eq!(hub.send_msg(SendTo::All, m()), HubAction::Send(vec![b], m()));
    assert_eq!(hub.get_conn(a), Err(HubError::UnregisteredId(a)));
    // ids are not reused
    assert_eq!(hub.register_connection(), 3);
}
