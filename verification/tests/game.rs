use moonlapse::server::game::{Game, GameOptions};
use moonlapse::server::messages::HubMessage;
use moonlapse::server::pacing::{ideal_tick_duration, pace_tick, TickPacing};
use moonlapse::shared::components::{Player, Position};
use moonlapse::shared::packets::{Component, Direction, Packet};

fn join(game: &mut Game, id: u64) -> u32 {
    let out = game.dispatch_hub_message(HubMessage::PlayerJoined(id, "jon".to_string()));
    assert_eq!(out.len(), 3);
    match &out[1] {
        HubMessage::Broadcast(Packet::ComponentUpdate(eid, Component::Position(p))) => {
            assert_eq!(*p, Position { x: 0, y: 0 });
            *eid
        }
        other => panic!("unexpected {:?}", other),
    }
}

fn translate(game: &mut Game, id: u64, d: Direction) {
    let msg = HubMessage::PacketFromClient(id, Packet::Translate(d));
    assert!(game.can_dispatch(&msg));
    assert!(game.dispatch_hub_message(msg).is_empty());
}

#[test]
fn joining_sends_snapshot_and_announces_player() {
    let mut game = Game::new(GameOptions { tick_rate: 20 });
    assert_eq!(game.tick_rate(), 20);
    let out = game.dispatch_hub_message(HubMessage::PlayerJoined(4, "jon".to_string()));
    assert_eq!(out.len(), 3);
    let eid = match &out[0] {
        HubMessage::SendTo(4, Packet::WorldSnapshot(ws)) => {
            assert_eq!(ws.players.len(), 1);
            assert_eq!(ws.players[0].1, Player { id: 4 });
            assert_eq!(ws.positions, vec![(ws.players[0].0, Position { x: 0, y: 0 })]);
            ws.players[0].0
        }
        other => panic!("unexpected {:?}", other),
    };
    assert_eq!(
        out[1],
        HubMessage::Broadcast(Packet::ComponentUpdate(eid, Component::Position(Position { x: 0, y: 0 })))
    );
    assert_eq!(
        out[2],
        HubMessage::Broadcast(Packet::ComponentUpdate(eid, Component::Player(Player { id: 4 })))
    );
}

#[test]
fn second_player_sees_the_first() {
    let mut game = Game::new(GameOptions { tick_rate: 20 });
    let e1 = join(&mut game, 1);
    let out = game.dispatch_hub_message(HubMessage::PlayerJoined(2, "jon".to_string()));
    match &out[0] {
        HubMessage::SendTo(2, Packet::WorldSnapshot(ws)) => {
            let mut ids: Vec<u64> = ws.players.iter().map(|(_, p)| p.id).collect();
            ids.sort();
            assert_eq!(ids, vec![1, 2]);
            assert!(ws.positions.iter().any(|(e, _)| *e == e1));
            assert_eq!(ws.positions.len(), 2);
        }
        other => panic!("unexpected {:?}", other),
    }
}

#[test]
fn a_move_takes_effect_on_the_next_tick() {
    let mut game = Game::new(GameOptions { tick_rate: 20 });
    let eid = join(&mut game, 1);
    translate(&mut game, 1, Direction::Up);
    assert!(game.can_run_systems());
    let out = game.run_systems();
    assert_eq!(
        out,
        vec![HubMessage::Broadcast(Packet::ComponentUpdate(eid, Component::Position(Position { x: 0, y: 1 })))]
    );
    // the velocity was reset: nothing moves on the next tick
    assert!(game.run_systems().is_empty());
}

#[test]
fn moves_in_one_tick_add_up() {
    let mut game = Game::new(GameOptions { tick_rate: 20 });
    let eid = join(&mut game, 1);
    translate(&mut game, 1, Direction::Left);
    translate(&mut game, 1, Direction::Down);
    translate(&mut game, 1, Direction::Left);
    let out = game.run_systems();
    assert_eq!(
        out,
        vec![HubMessage::Broadcast(Packet::ComponentUpdate(eid, Component::Position(Position { x: -2, y: -1 })))]
    );
    translate(&mut game, 1, Direction::Right);
    translate(&mut game, 1, Direction::Left);
    assert!(game.run_systems().is_empty());
}

#[test]
fn moves_of_unknown_players_do_nothing() {
    let mut game = Game::new(GameOptions { tick_rate: 20 });
    join(&mut game, 1);
    translate(&mut game, 9, Direction::Up);
    assert!(game.run_systems().is_empty());
}

#[test]
fn leaving_removes_the_player() {
    let mut game = Game::new(GameOptions { tick_rate: 20 });
    join(&mut game, 1);
    assert!(game.dispatch_hub_message(HubMessage::PlayerLeft(1)).is_empty());
    translate(&mut game, 1, Direction::Up);
    assert!(game.run_systems().is_empty());
    let out = game.dispatch_hub_message(HubMessage::PlayerJoined(2, "jon".to_string()));
    match &out[0] {
        HubMessage::SendTo(2, Packet::WorldSnapshot(ws)) => {
            assert_eq!(ws.players.len(), 1);
            assert_eq!(ws.players[0].1, Player { id: 2 });
        }
        other => panic!("unexpected {:?}", other),
    }
    // leaving twice is harmless
    assert!(game.dispatch_hub_message(HubMessage::PlayerLeft(1)).is_empty());
}

#[test]
fn other_messages_are_ignored() {
    let mut game = Game::new(GameOptions { tick_rate: 20 });
    join(&mut game, 1);
    assert!(game.dispatch_hub_message(HubMessage::Broadcast(Packet::Okay)).is_empty());
    assert!(game.dispatch_hub_message(HubMessage::SendTo(1, Packet::Okay)).is_empty());
    assert!(game
        .dispatch_hub_message(HubMessage::PacketFromClient(1, Packet::Chat("x".to_string())))
        .is_empty());
    assert!(game.run_systems().is_empty());
}

#[test]
fn tick_pacing() {
    assert_eq!(ideal_tick_duration(20), 50);
    assert_eq!(ideal_tick_duration(3), 333);
    assert_eq!(pace_tick(50, 20), TickPacing::Sleep(30));
    assert_eq!(pace_tick(50, 50), TickPacing::OverBudget);
    assert_eq!(pace_tick(50, 70), TickPacing::OverBudget);
}

#[test]
fn checked_dispatch_and_systems_act_like_the_plain_ones() {
    let mut game = Game::new(GameOptions { tick_rate: 20 });
    let out = game.try_dispatch_hub_message(HubMessage::PlayerJoined(3, "jon".to_string())).unwrap();
    assert_eq!(out.len(), 3);
    let eid = match &out[2] {
        HubMessage::Broadcast(Packet::ComponentUpdate(e, Component::Player(p))) => {
            assert_eq!(*p, Player { id: 3 });
            *e
        }
        other => panic!("unexpected {:?}", other),
    };
    let moved = game.try_dispatch_hub_message(HubMessage::PacketFromClient(3, Packet::Translate(Direction::Right)));
    assert_eq!(moved, Some(vec![]));
    assert_eq!(
        game.try_run_systems(),
        Some(vec![HubMessage::Broadcast(Packet::ComponentUpdate(eid, Component::Position(Position { x: 1, y: 0 })))])
    );
    assert_eq!(game.try_run_systems(), Some(vec![]));
    assert_eq!(game.try_dispatch_hub_message(HubMessage::PlayerLeft(3)), Some(vec![]));
}

#[test]
fn a_tick_handles_messages_in_order_then_moves() {
    let mut game = Game::new(GameOptions { tick_rate: 20 });
    let out = game
        .tick(vec![
            HubMessage::PlayerJoined(1, "jon".to_string()),
            HubMessage::PacketFromClient(1, Packet::Translate(Direction::Up)),
            HubMessage::PacketFromClient(1, Packet::Translate(Direction::Up)),
        ])
        .unwrap();
    assert_eq!(out.len(), 4);
    let eid = match &out[1] {
        HubMessage::Broadcast(Packet::ComponentUpdate(e, Component::Position(p))) => {
            assert_eq!(*p, Position { x: 0, y: 0 });
            *e
        }
        other => panic!("unexpected {:?}", other),
    };
    assert!(matches!(&out[0], HubMessage::SendTo(1, Packet::WorldSnapshot(_))));
    assert_eq!(
        out[3],
        HubMessage::Broadcast(Packet::ComponentUpdate(eid, Component::Position(Position { x: 0, y: 2 })))
    );
    // a move before the player joins does nothing
    let out = game
        .tick(vec![
            HubMessage::PacketFromClient(2, Packet::Translate(Direction::Left)),
            HubMessage::PlayerJoined(2, "jon".to_string()),
        ])
        .unwrap();
    assert_eq!(out.len(), 3);
    assert_eq!(game.tick(vec![HubMessage::PlayerLeft(1), HubMessage::PlayerLeft(2)]), Some(vec![]));
}
