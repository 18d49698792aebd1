use moonlapse::shared::components::{Player, Position};
use moonlapse::shared::packets::{Component, Direction, Packet};
use moonlapse::shared::serializers::json::{deserialize, serialize, MalformedPacket};
use moonlapse::shared::WorldSnapshot;
use moonlapse::wire::WireValue;

fn to_wire(v: &serde_json::Value) -> WireValue {
    match v {
        serde_json::Value::Null => WireValue::Null,
        serde_json::Value::Bool(b) => WireValue::Bool(*b),
        serde_json::Value::Number(n) => {
            if let Some(u) = n.as_u64() {
                WireValue::UInt(u)
            } else if let Some(i) = n.as_i64() {
                WireValue::Int(i)
            } else {
                WireValue::Unsupported
            }
        }
        serde_json::Value::String(s) => WireValue::Str(s.clone()),
        serde_json::Value::Array(a) => WireValue::Array(a.iter().map(to_wire).collect()),
        serde_json::Value::Object(o) => {
            WireValue::Object(o.iter().map(|(k, v)| (k.clone(), to_wire(v))).collect())
        }
    }
}

fn from_json(text: &str) -> WireValue {
    to_wire(&serde_json::from_str::<serde_json::Value>(text).unwrap())
}

fn to_json(w: &WireValue) -> serde_json::Value {
    match w {
        WireValue::Null | WireValue::Unsupported => serde_json::Value::Null,
        WireValue::Bool(b) => serde_json::Value::Bool(*b),
        WireValue::UInt(n) => serde_json::Value::from(*n),
        WireValue::Int(n) => serde_json::Value::from(*n),
        WireValue::Str(s) => serde_json::Value::String(s.clone()),
        WireValue::Array(a) => serde_json::Value::Array(a.iter().map(to_json).collect()),
        WireValue::Object(o) => {
            let mut m = serde_json::Map::new();
            for (k, v) in o {
                m.insert(k.clone(), to_json(v));
            }
            serde_json::Value::Object(m)
        }
    }
}

fn all_packets() -> Vec<Packet> {
    vec![
        Packet::Id(7),
        Packet::Okay,
        Packet::Deny("no".to_string()),
        Packet::PlayerDisconnected(3),
        Packet::Register("a".to_string(), "b".to_string()),
        Packet::Login("jon".to_string(), "123".to_string()),
        Packet::Chat("hi there".to_string()),
        Packet::ChatBroadcast(9, "yo".to_string()),
        Packet::Translate(Direction::Up),
        Packet::Translate(Direction::Down),
        Packet::Translate(Direction::Left),
        Packet::Translate(Direction::Right),
        Packet::ComponentUpdate(4, Component::Position(Position { x: -3, y: 12 })),
        Packet::ComponentUpdate(5, Component::Player(Player { id: 42 })),
        Packet::WorldSnapshot(WorldSnapshot {
            players: vec![(1, Player { id: 10 }), (2, Player { id: 11 })],
            positions: vec![(1, Position { x: 0, y: -1 }), (2, Position { x: 2147483647, y: -2147483648 })],
        }),
    ]
}

#[test]
fn every_packet_reads_back_as_written() {
    for p in all_packets() {
        assert_eq!(deserialize(&serialize(&p)), Ok(p.clone()));
    }
}

#[test]
fn every_packet_reads_back_through_json_text() {
    for p in all_packets() {
        let text = serde_json::to_string(&to_json(&serialize(&p))).unwrap();
        assert_eq!(deserialize(&from_json(&text)), Ok(p.clone()));
    }
}

#[test]
fn packets_are_written_as_serde_writes_them() {
    let cases: Vec<(Packet, &str)> = vec![
        (Packet::Id(5), r#"{"Id":5}"#),
        (Packet::Okay, r#""Ok""#),
        (Packet::Deny("User does not exist".to_string()), r#"{"Deny":"User does not exist"}"#),
        (Packet::Login("jon".to_string(), "123".to_string()), r#"{"Login":["jon","123"]}"#),
        (Packet::ChatBroadcast(2, "hey".to_string()), r#"{"ChatBroadcast":[2,"hey"]}"#),
        (Packet::Translate(Direction::Left), r#"{"Translate":"Left"}"#),
        (
            Packet::ComponentUpdate(1, Component::Position(Position { x: 0, y: -2 })),
            r#"{"ComponentUpdate":[1,{"Position":{"x":0,"y":-2}}]}"#,
        ),
        (
            Packet::ComponentUpdate(1, Component::Player(Player { id: 8 })),
            r#"{"ComponentUpdate":[1,{"Player":{"id":8}}]}"#,
        ),
        (
            Packet::WorldSnapshot(WorldSnapshot {
                players: vec![(3, Player { id: 1 })],
                positions: vec![(3, Position { x: 0, y: 0 })],
            }),
            r#"{"WorldSnapshot":{"players":[[3,{"id":1}]],"positions":[[3,{"x":0,"y":0}]]}}"#,
        ),
    ];
    for (p, text) in cases {
        assert_eq!(serde_json::to_string(&to_json(&serialize(&p))).unwrap(), text);
        assert_eq!(deserialize(&from_json(text)), Ok(p));
    }
}

#[test]
fn serialize_writes_the_variant_as_the_key() {
    assert_eq!(
        serialize(&Packet::Id(5)),
        WireValue::Object(vec![("Id".to_string(), WireValue::UInt(5))])
    );
    assert_eq!(serialize(&Packet::Okay), WireValue::Str("Ok".to_string()));
}

#[test]
fn unit_variants_also_read_with_null_content() {
    assert_eq!(deserialize(&from_json(r#"{"Ok":null}"#)), Ok(Packet::Okay));
    assert_eq!(
        deserialize(&from_json(r#"{"Translate":{"Down":null}}"#)),
        Ok(Packet::Translate(Direction::Down))
    );
}

#[test]
fn structs_also_read_as_arrays_and_ignore_unknown_fields() {
    assert_eq!(
        deserialize(&from_json(r#"{"ComponentUpdate":[1,{"Position":[4,5]}]}"#)),
        Ok(Packet::ComponentUpdate(1, Component::Position(Position { x: 4, y: 5 })))
    );
    assert_eq!(
        deserialize(&from_json(r#"{"ComponentUpdate":[1,{"Position":{"y":5,"z":9,"x":4}}]}"#)),
        Ok(Packet::ComponentUpdate(1, Component::Position(Position { x: 4, y: 5 })))
    );
}

#[test]
fn malformed_values_are_refused() {
    let bad = [
        r#"{"Nope":1}"#,
        r#""Id""#,
        r#"{"Id":-1}"#,
        r#"{"Id":1,"Ok":null}"#,
        r#"{"Deny":5}"#,
        r#"{"Ok":1}"#,
        r#"{"Login":["jon"]}"#,
        r#"{"Login":["jon","1","2"]}"#,
        r#"{"ComponentUpdate":[4294967296,{"Player":{"id":1}}]}"#,
        r#"{"ComponentUpdate":[1,{"Position":{"x":2147483648,"y":0}}]}"#,
        r#"{"ComponentUpdate":[1,{"Position":{"x":1}}]}"#,
        r#"{"Translate":"North"}"#,
        r#"{"WorldSnapshot":{"players":[[1,{"id":-4}]],"positions":[]}}"#,
        r#"{"WorldSnapshot":{"players":[]}}"#,
        r#"1.5"#,
        r#"null"#,
    ];
    for text in bad {
        assert_eq!(deserialize(&from_json(text)), Err(MalformedPacket), "{}", text);
    }
}

#[test]
fn negative_and_extreme_coordinates_survive() {
    let p = Packet::ComponentUpdate(
        0,
        Component::Position(Position { x: -2147483648, y: 2147483647 }),
    );
    assert_eq!(deserialize(&serialize(&p)), Ok(p));
}
