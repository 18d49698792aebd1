use moonlapse::server::connection::{Connection, ReadOutcome};
use moonlapse::server::messages::ConnectionMessage;
use moonlapse::shared::packets::Packet;
use moonlapse::shared::serializers::json::serialize;
use moonlapse::wire::WireValue;

#[test]
fn connection_greets_with_its_id() {
    let c = Connection::new(12);
    assert_eq!(c.id(), 12);
    assert_eq!(c.greeting(), Packet::Id(12));
}

#[test]
fn reads_become_hub_messages() {
    let c = Connection::new(3);
    assert_eq!(c.on_read(0, None), ReadOutcome::Closed);
    assert_eq!(c.on_read(5, None), ReadOutcome::Malformed);
    assert_eq!(c.on_read(5, Some(&WireValue::Str("Nope".to_string()))), ReadOutcome::Malformed);
    let w = serialize(&Packet::Chat("hey".to_string()));
    assert_eq!(
        c.on_read(14, Some(&w)),
        ReadOutcome::Forward(ConnectionMessage::PacketReceived(3, Packet::Chat("hey".to_string())))
    );
}

#[test]
fn only_send_packet_is_written() {
    let c = Connection::new(3);
    assert_eq!(c.on_hub_message(ConnectionMessage::SendPacket(Packet::Okay)), Some(Packet::Okay));
    assert_eq!(c.on_hub_message(ConnectionMessage::Disconnected(1)), None);
    assert_eq!(c.on_hub_message(ConnectionMessage::PacketReceived(1, Packet::Okay)), None);
}
