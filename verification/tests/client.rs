use moonlapse::client::{game_map_lines, visible_chat_range, ClientState, Focus, Key, KeyOutcome};

fn press(s: &mut ClientState, k: Key) -> KeyOutcome {
    s.handle_key(k)
}

#[test]
fn client_starts_on_the_game_panel() {
    let s = ClientState::new();
    assert_eq!(s.focus, Focus::Game);
    assert_eq!(s.selected, Some(0));
    assert_eq!(s.chats.len(), 6);
    assert_eq!(s.inventory.len(), 5);
    assert_eq!(s.inventory[1], ("Health Potion".to_string(), 3));
    assert_eq!(s.inventory[4], ("Old Key".to_string(), 1));
    assert_eq!(s.chats[0], "[Alyssa]: Welcome to The Forgotten Moors!");
    assert_eq!(s.chats[5], "[System]: A distant howl echoes...");
    assert!(!s.chat_active);
}

#[test]
fn q_quits_unless_typing() {
    let mut s = ClientState::new();
    assert_eq!(press(&mut s, Key::Char('q')), KeyOutcome::Quit);
    press(&mut s, Key::Enter);
    assert!(s.chat_active);
    assert_eq!(press(&mut s, Key::Char('q')), KeyOutcome::Continue);
    assert_eq!(s.input, vec!['q']);
}

#[test]
fn number_keys_switch_panels() {
    let mut s = ClientState::new();
    press(&mut s, Key::Char('2'));
    assert_eq!(s.focus, Focus::Inventory);
    press(&mut s, Key::Char('3'));
    assert_eq!(s.focus, Focus::Log);
    press(&mut s, Key::Char('1'));
    assert_eq!(s.focus, Focus::Game);
    press(&mut s, Key::Enter);
    press(&mut s, Key::Char('2'));
    assert_eq!(s.focus, Focus::Game);
    assert_eq!(s.input, vec!['2']);
}

#[test]
fn typing_and_sending_a_chat_line() {
    let mut s = ClientState::new();
    press(&mut s, Key::Enter);
    for c in "hix".chars() {
        press(&mut s, Key::Char(c));
    }
    press(&mut s, Key::Backspace);
    press(&mut s, Key::Enter);
    assert!(!s.chat_active);
    assert!(s.input.is_empty());
    assert_eq!(s.chats.len(), 7);
    assert_eq!(s.chats[6], "[Jon]: hi");
}

#[test]
fn empty_line_is_not_sent_and_esc_cancels() {
    let mut s = ClientState::new();
    press(&mut s, Key::Enter);
    press(&mut s, Key::Enter);
    assert!(!s.chat_active);
    assert_eq!(s.chats.len(), 6);
    press(&mut s, Key::Enter);
    press(&mut s, Key::Char('a'));
    press(&mut s, Key::Esc);
    assert!(!s.chat_active);
    assert_eq!(s.input, vec!['a']);
    assert_eq!(s.chats.len(), 6);
    press(&mut s, Key::Backspace);
    assert_eq!(s.input, vec!['a']);
}

#[test]
fn inventory_selection_stays_in_range() {
    let mut s = ClientState::new();
    press(&mut s, Key::Char('2'));
    press(&mut s, Key::Up);
    assert_eq!(s.selected, Some(0));
    for _ in 0..10 {
        press(&mut s, Key::Down);
    }
    assert_eq!(s.selected, Some(4));
    press(&mut s, Key::Up);
    assert_eq!(s.selected, Some(3));
}

#[test]
fn log_scrolls_only_when_there_is_more() {
    let mut s = ClientState::new();
    press(&mut s, Key::Char('3'));
    press(&mut s, Key::Up);
    assert_eq!(s.chat_scroll, 0);
    for i in 0..8 {
        press(&mut s, Key::Enter);
        press(&mut s, Key::Char(char::from(b'a' + i)));
        press(&mut s, Key::Enter);
    }
    assert_eq!(s.chats.len(), 14);
    for _ in 0..10 {
        press(&mut s, Key::Up);
    }
    assert_eq!(s.chat_scroll, 3);
    press(&mut s, Key::Down);
    assert_eq!(s.chat_scroll, 2);
    press(&mut s, Key::Down);
    press(&mut s, Key::Down);
    press(&mut s, Key::Down);
    assert_eq!(s.chat_scroll, 0);
}

#[test]
fn map_lines_draw_walls_and_player() {
    let lines = game_map_lines(5, 3);
    assert_eq!(lines, vec!["# # # # # ", "# . @ . # ", "# # # # # "]);
    let lines = game_map_lines(100, 100);
    assert_eq!(lines.len(), 15);
    assert_eq!(lines[0].len(), 60);
    assert_eq!(lines[7].chars().nth(30), Some('@'));
    assert!(game_map_lines(0, 0).is_empty());
    assert_eq!(game_map_lines(0, 2), vec!["", ""]);
}

#[test]
fn chat_window_shows_latest_lines() {
    // 20 lines, a panel with room for 10, not scrolled: the last 10
    assert_eq!(visible_chat_range(20, 11, 0), (10, 20));
    // scrolled up by 3
    assert_eq!(visible_chat_range(20, 11, 3), (7, 17));
    // scrolling past the top stops at the first line
    assert_eq!(visible_chat_range(20, 11, 99), (0, 10));
    // fewer lines than room
    assert_eq!(visible_chat_range(4, 11, 2), (0, 4));
    // no room at all
    assert_eq!(visible_chat_range(4, 0, 0), (4, 4));
}
