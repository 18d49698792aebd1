//! The terminal client's state and what each key press does to it, and the
//! text it draws: the map around the player and the visible part of the log.
//! Drawing on the terminal belongs to the caller.
use vstd::prelude::*;

use vstd::string::StringExecFns;

use crate::wire::text;

verus! {

/// Which panel the keys act on.
#[derive(Debug, Clone, Copy, PartialEq, Eq, Structural)]
pub enum Focus {
    Game,
    Inventory,
    Log,
}

/// A key press, as far as the client tells keys apart.
#[derive(Debug, Clone, Copy, PartialEq, Eq)]
pub enum Key {
    Char(char),
    Enter,
    Esc,
    Backspace,
    Up,
    Down,
    /// Any other key.
    Other,
}

/// What the event loop does after a key press.
#[derive(Debug, Clone, Copy, PartialEq, Eq)]
pub enum KeyOutcome {
    Continue,
    Quit,
}

/// How many log lines the scroll keys assume are visible.
pub const SCROLL_VISIBLE_LINES: usize = 11;

/// `a - b`, or 0 when `b` is larger.
pub open spec fn saturating_sub(a: int, b: int) -> int {
    if a >= b {
        a - b
    } else {
        0
    }
}

/// How far up the log can be scrolled with `n` lines in it.
pub open spec fn max_scroll(n: int) -> int {
    saturating_sub(n, SCROLL_VISIBLE_LINES as int)
}

/// `s` with `c` dropped from its end, if it has one.
pub open spec fn drop_last_char(s: Seq<char>) -> Seq<char> {
    if s.len() > 0 {
        s.drop_last()
    } else {
        s
    }
}

/// The state of the client's screen.
pub struct ClientState {
    pub focus: Focus,
    /// The selected inventory row.
    pub selected: Option<usize>,
    /// How many lines the log is scrolled up.
    pub chat_scroll: usize,
    /// The chat line being typed.
    pub input: Vec<char>,
    pub chats: Vec<String>,
    /// Whether keys go to the chat line.
    pub chat_active: bool,
    /// The inventory: item names and quantities.
    pub inventory: Vec<(String, i32)>,
}

/// The abstract state of the client.
pub struct ClientView {
    pub focus: Focus,
    pub selected: Option<usize>,
    pub chat_scroll: int,
    pub input: Seq<char>,
    pub chats: Seq<Seq<char>>,
    pub chat_active: bool,
    pub inventory_len: int,
}

impl View for ClientState {
    type V = ClientView;

    open spec fn view(&self) -> ClientView {
        ClientView {
            focus: self.focus,
            selected: self.selected,
            chat_scroll: self.chat_scroll as int,
            input: self.input@,
            chats: self.chats@.map_values(|s: String| s@),
            chat_active: self.chat_active,
            inventory_len: self.inventory@.len() as int,
        }
    }
}

/// The chat line a message typed by the player becomes.
pub open spec fn chat_line(input: Seq<char>) -> Seq<char> {
    "[Jon]: "@ + input
}

/// What a key press does: the state after it, and whether to quit.
pub open spec fn key_step(s: ClientView, k: Key) -> (ClientView, KeyOutcome) {
    let cont = KeyOutcome::Continue;
    match k {
        Key::Char(c) => if !s.chat_active {
            if c == 'q' {
                (s, KeyOutcome::Quit)
            } else if c == '1' {
                (ClientView { focus: Focus::Game, ..s }, cont)
            } else if c == '2' {
                (ClientView { focus: Focus::Inventory, ..s }, cont)
            } else if c == '3' {
                (ClientView { focus: Focus::Log, ..s }, cont)
            } else {
                (s, cont)
            }
        } else {
            (ClientView { input: s.input.push(c), ..s }, cont)
        },
        Key::Enter => if s.chat_active {
            if s.input.len() > 0 {
                (
                    ClientView {
                        chats: s.chats.push(chat_line(s.input)),
                        input: Seq::empty(),
                        chat_active: false,
                        ..s
                    },
                    cont,
                )
            } else {
                (ClientView { chat_active: false, ..s }, cont)
            }
        } else {
            (ClientView { chat_active: true, ..s }, cont)
        },
        Key::Esc => if s.chat_active {
            (ClientView { chat_active: false, ..s }, cont)
        } else {
            (s, cont)
        },
        Key::Backspace => if s.chat_active {
            (ClientView { input: drop_last_char(s.input), ..s }, cont)
        } else {
            (s, cont)
        },
        Key::Down => if s.chat_active {
            (s, cont)
        } else if s.focus == Focus::Inventory {
            let i = match s.selected {
                Some(i) => i as int,
                None => 0,
            };
            let next = if i + 1 < s.inventory_len - 1 {
                i + 1
            } else {
                s.inventory_len - 1
            };
            (ClientView { selected: Some(next as usize), ..s }, cont)
        } else if s.focus == Focus::Log {
            if s.chat_scroll > 0 {
                (ClientView { chat_scroll: s.chat_scroll - 1, ..s }, cont)
            } else {
                (s, cont)
            }
        } else {
            (s, cont)
        },
        Key::Up => if s.chat_active {
            (s, cont)
        } else if s.focus == Focus::Inventory {
            let i = match s.selected {
                Some(i) => i as int,
                None => 0,
            };
            (ClientView { selected: Some(saturating_sub(i, 1) as usize), ..s }, cont)
        } else if s.focus == Focus::Log {
            if s.chat_scroll < max_scroll(s.chats.len() as int) {
                (ClientView { chat_scroll: s.chat_scroll + 1, ..s }, cont)
            } else {
                (s, cont)
            }
        } else {
            (s, cont)
        },
        Key::Other => (s, cont),
    }
}

/// The selection is a row of a non-empty inventory, and the log is not scrolled
/// past its top.
pub open spec fn client_wf(s: ClientView) -> bool {
    &&& s.inventory_len > 0
    &&& s.selected matches Some(i) && i < s.inventory_len
    &&& 0 <= s.chat_scroll <= max_scroll(s.chats.len() as int)
}

/// A string holding the characters.
#[verifier::external_body]
fn string_from_chars(cs: &Vec<char>) -> (r: String)
    ensures
        r@ == cs@,
{
    cs.iter().collect()
}

impl ClientState {
    /// The client as it starts: the game panel focused, the first inventory row
    /// selected, and the welcome lines in the log.
    pub fn new() -> (r: ClientState)
        ensures
            client_wf(r@),
            r@.focus == Focus::Game,
            r@.selected == Some(0usize),
            r@.chat_scroll == 0,
            r@.input.len() == 0,
            !r@.chat_active,
            r@.chats == seq![
                "[Alyssa]: Welcome to The Forgotten Moors!"@,
                "[Borin]: Stay close, traveler."@,
                "[System]: You feel a chill down your spine..."@,
                "[Cedric]: Anyone found the key yet?"@,
                "[Alyssa]: Not yet!"@,
                "[System]: A distant howl echoes..."@,
            ],
            r.inventory@.map_values(|e: (String, i32)| (e.0@, e.1)) == seq![
                ("Rusty Sword"@, 1i32),
                ("Health Potion"@, 3i32),
                ("Iron Shield"@, 1i32),
                ("Torch"@, 5i32),
                ("Old Key"@, 1i32),
            ],
    {
        let inventory = vec![
            (text("Rusty Sword"), 1i32),
            (text("Health Potion"), 3i32),
            (text("Iron Shield"), 1i32),
            (text("Torch"), 5i32),
            (text("Old Key"), 1i32),
        ];
        let chats = vec![
            text("[Alyssa]: Welcome to The Forgotten Moors!"),
            text("[Borin]: Stay close, traveler."),
            text("[System]: You feel a chill down your spine..."),
            text("[Cedric]: Anyone found the key yet?"),
            text("[Alyssa]: Not yet!"),
            text("[System]: A distant howl echoes..."),
        ];
        assert(chats@.map_values(|s: String| s@) =~= seq![
            "[Alyssa]: Welcome to The Forgotten Moors!"@,
            "[Borin]: Stay close, traveler."@,
            "[System]: You feel a chill down your spine..."@,
            "[Cedric]: Anyone found the key yet?"@,
            "[Alyssa]: Not yet!"@,
            "[System]: A distant howl echoes..."@,
        ]);
        assert(inventory@.map_values(|e: (String, i32)| (e.0@, e.1)) =~= seq![
            ("Rusty Sword"@, 1i32),
            ("Health Potion"@, 3i32),
            ("Iron Shield"@, 1i32),
            ("Torch"@, 5i32),
            ("Old Key"@, 1i32),
        ]);
        ClientState {
            focus: Focus::Game,
            selected: Some(0),
            chat_scroll: 0,
            input: Vec::new(),
            chats,
            chat_active: false,
            inventory,
        }
    }

    /// Applies a key press.
    pub fn handle_key(&mut self, key: Key) -> (r: KeyOutcome)
        requires
            client_wf(old(self)@),
        ensures
            (final(self)@, r) == key_step(old(self)@, key),
            client_wf(final(self)@),
            final(self).inventory@ == old(self).inventory@,
    {
        let ghost s0 = self@;
        match key {
            Key::Char(c) => {
                if !self.chat_active {
                    // panel focus keys (disabled when typing chat)
                    if c == 'q' {
                        return KeyOutcome::Quit;
                    } else if c == '1' {
                        self.focus = Focus::Game;
                    } else if c == '2' {
                        self.focus = Focus::Inventory;
                    } else if c == '3' {
                        self.focus = Focus::Log;
                    }
                } else {
                    // chat typing
                    self.input.push(c);
                }
            },
            Key::Enter => {
                if self.chat_active {
                    // send message
                    if self.input.len() > 0 {
                        let line = text("[Jon]: ").concat(string_from_chars(&self.input).as_str());
                        self.chats.push(line);
                        self.input = Vec::new();
                        proof {
                            assert(self@.chats =~= s0.chats.push(chat_line(s0.input)));
                            assert(max_scroll(s0.chats.len() as int) <= max_scroll(
                                self@.chats.len() as int,
                            ));
                        }
                    }
                    self.chat_active = false;
                } else {
                    self.chat_active = true;
                }
            },
            Key::Esc => {
                // cancel chat input
                if self.chat_active {
                    self.chat_active = false;
                }
            },
            Key::Backspace => {
                if self.chat_active {
                    self.input.pop();
                    assert(self.input@ =~= drop_last_char(s0.input));
                }
            },
            Key::Down => {
                if self.chat_active {
                } else if self.focus == Focus::Inventory {
                    // inventory scrolling
                    let i = match self.selected {
                        Some(i) => i,
                        None => 0,
                    };
                    let last = self.inventory.len() - 1;
                    let next = if i + 1 < last {
                        i + 1
                    } else {
                        last
                    };
                    self.selected = Some(next);
                } else if self.focus == Focus::Log {
                    // log scrolling
                    if self.chat_scroll > 0 {
                        self.chat_scroll = self.chat_scroll - 1;
                    }
                }
            },
            Key::Up => {
                if self.chat_active {
                } else if self.focus == Focus::Inventory {
                    let i = match self.selected {
                        Some(i) => i,
                        None => 0,
                    };
                    let prev = if i >= 1 {
                        i - 1
                    } else {
                        0
                    };
                    self.selected = Some(prev);
                } else if self.focus == Focus::Log {
                    let max = if self.chats.len() >= SCROLL_VISIBLE_LINES {
                        self.chats.len() - SCROLL_VISIBLE_LINES
                    } else {
                        0
                    };
                    if self.chat_scroll < max {
                        self.chat_scroll = self.chat_scroll + 1;
                    }
                }
            },
            Key::Other => {},
        }
        KeyOutcome::Continue
    }
}

// ---------------------------------------------------------------------------
// The text on the screen
// ---------------------------------------------------------------------------
/// The map's cell at `(x, y)` in a `w` by `h` view: a wall on the border, the
/// player at the centre, floor elsewhere.
pub open spec fn map_cell(w: int, h: int, x: int, y: int) -> char {
    if x == 0 || y == 0 || x == w - 1 || y == h - 1 {
        '#'
    } else if x == w / 2 && y == h / 2 {
        '@'
    } else {
        '.'
    }
}

/// One row of the map: each cell followed by a space.
pub open spec fn map_row(w: int, h: int, y: int) -> Seq<char> {
    Seq::new((2 * w) as nat, |i: int| if i % 2 == 0 { map_cell(w, h, i / 2, y) } else { ' ' })
}

pub open spec fn min_int(a: int, b: int) -> int {
    if a <= b {
        a
    } else {
        b
    }
}

/// The map drawn in a panel whose inside is `width` by `height`: at most 30 cells
/// wide and 15 high, one line per row.
pub fn game_map_lines(width: u16, height: u16) -> (lines: Vec<String>)
    ensures
        lines@.len() == min_int(height as int, 15),
        forall|y: int|
            0 <= y < lines@.len() ==> (#[trigger] lines@[y])@ == map_row(
                min_int(width as int, 30),
                min_int(height as int, 15),
                y,
            ),
{
    let w: u16 = if width < 30 {
        width
    } else {
        30
    };
    let h: u16 = if height < 15 {
        height
    } else {
        15
    };
    let center_x = w / 2;
    let center_y = h / 2;
    let mut lines: Vec<String> = Vec::new();
    let mut y: u16 = 0;
    while y < h
        invariant
            0 <= y <= h,
            w as int == min_int(width as int, 30),
            h as int == min_int(height as int, 15),
            center_x == w / 2,
            center_y == h / 2,
            lines@.len() == y,
            forall|j: int|
                0 <= j < y ==> (#[trigger] lines@[j])@ == map_row(w as int, h as int, j),
        decreases h - y,
    {
        let mut row: Vec<char> = Vec::new();
        let mut x: u16 = 0;
        while x < w
            invariant
                0 <= x <= w,
                0 <= y < h,
                center_x == w / 2,
                center_y == h / 2,
                row@.len() == 2 * x,
                forall|i: int|
                    0 <= i < 2 * x ==> #[trigger] row@[i] == if i % 2 == 0 {
                        map_cell(w as int, h as int, i / 2, y as int)
                    } else {
                        ' '
                    },
            decreases w - x,
        {
            if x == 0 || y == 0 || x == w - 1 || y == h - 1 {
                row.push('#');
            } else if x == center_x && y == center_y {
                row.push('@');
            } else {
                row.push('.');
            }
            // spacing between cells
            row.push(' ');
            x = x + 1;
        }
        let line = string_from_chars(&row);
        assert(line@ =~= map_row(w as int, h as int, y as int));
        lines.push(line);
        y = y + 1;
    }
    lines
}

/// The log lines that show in a panel whose chat area is `area_height` high,
/// scrolled up by `scroll`: the range `start..end` of the `total` lines.
pub fn visible_chat_range(total: usize, area_height: u16, scroll: usize) -> (r: (usize, usize))
    ensures
        ({
            let visible = saturating_sub(area_height as int, 1);
            let scroll = min_int(scroll as int, saturating_sub(total as int, visible));
            let start = saturating_sub(total as int, visible + scroll);
            &&& r.0 == start
            &&& r.1 == min_int(total as int, start + visible)
        }),
        r.0 <= r.1 <= total,
{
    let visible_lines: usize = if area_height >= 1 {
        (area_height - 1) as usize
    } else {
        0
    };
    // Ensure we can't scroll beyond the top
    let max_scroll: usize = if total >= visible_lines {
        total - visible_lines
    } else {
        0
    };
    let scroll = if scroll < max_scroll {
        scroll
    } else {
        max_scroll
    };
    let start = if total >= visible_lines + scroll {
        total - (visible_lines + scroll)
    } else {
        0
    };
    let end = if start + visible_lines < total {
        start + visible_lines
    } else {
        total
    };
    (start, end)
}

// ---------------------------------------------------------------------------
// Laws
// ---------------------------------------------------------------------------
/// While a chat line is being typed, no key quits, and a typed character is
/// added to the line.
pub proof fn lemma_typing_never_quits(s: ClientView, k: Key)
    requires
        s.chat_active,
    ensures
        key_step(s, k).1 == KeyOutcome::Continue,
        k matches Key::Char(c) ==> key_step(s, k).0.input == s.input.push(c),
{
}

/// Sending a typed line adds it to the log as the player's line, empties the
/// chat line, and leaves typing.
pub proof fn lemma_enter_sends_line(s: ClientView)
    requires
        s.chat_active,
        s.input.len() > 0,
    ensures
        key_step(s, Key::Enter).0.chats == s.chats.push(chat_line(s.input)),
        key_step(s, Key::Enter).0.input.len() == 0,
        !key_step(s, Key::Enter).0.chat_active,
{
}

/// Scrolling the log up and then down returns to where it was, when it could
/// scroll up.
pub proof fn lemma_scroll_up_then_down(s: ClientView)
    requires
        client_wf(s),
        !s.chat_active,
        s.focus == Focus::Log,
        s.chat_scroll < max_scroll(s.chats.len() as int),
    ensures
        key_step(key_step(s, Key::Up).0, Key::Down).0 == s,
{
}

/// The map has walls all around and the player at its centre.
pub proof fn lemma_map_shape(w: int, h: int, x: int, y: int)
    requires
        3 <= w,
        3 <= h,
        0 <= x < w,
        0 <= y < h,
    ensures
        (x == 0 || y == 0 || x == w - 1 || y == h - 1) ==> map_cell(w, h, x, y) == '#',
        map_cell(w, h, w / 2, h / 2) == '@',
{
}

/// Whatever is scrolled, the visible lines fit the panel, and when the log is
/// not scrolled they end with its last line.
pub proof fn lemma_window_shows_latest(total: int, visible: int)
    requires
        0 <= total,
        0 <= visible,
    ensures
        ({
            let start = saturating_sub(total, visible);
            &&& min_int(total, start + visible) - start <= visible
            &&& min_int(total, start + visible) == total
        }),
{
}

/// When not typing, `1`, `2` and `3` focus the game, the inventory and the
/// log, `q` quits, and any other character does nothing.
pub proof fn lemma_focus_keys(s: ClientView, c: char)
    requires
        !s.chat_active,
    ensures
        key_step(s, Key::Char('1')) == (ClientView { focus: Focus::Game, ..s }, KeyOutcome::Continue),
        key_step(s, Key::Char('2')) == (
            ClientView { focus: Focus::Inventory, ..s },
            KeyOutcome::Continue,
        ),
        key_step(s, Key::Char('3')) == (ClientView { focus: Focus::Log, ..s }, KeyOutcome::Continue),
        key_step(s, Key::Char('q')) == (s, KeyOutcome::Quit),
        c != '1' && c != '2' && c != '3' && c != 'q' ==> key_step(s, Key::Char(c)) == (
            s,
            KeyOutcome::Continue,
        ),
{
}

/// With the inventory focused and not typing, Down selects the next row, or
/// stays on the last one, and Up the previous row, or stays on the first;
/// nothing else changes. So Down then Up returns to a row that is not the last.
pub proof fn lemma_inventory_selection(s: ClientView, i: usize)
    requires
        client_wf(s),
        !s.chat_active,
        s.focus == Focus::Inventory,
        s.selected == Some(i),
        s.inventory_len <= usize::MAX,
    ensures
        key_step(s, Key::Down).1 == KeyOutcome::Continue,
        key_step(s, Key::Up).1 == KeyOutcome::Continue,
        i + 1 < s.inventory_len ==> key_step(s, Key::Down).0 == (ClientView {
            selected: Some((i + 1) as usize),
            ..s
        }),
        i + 1 >= s.inventory_len ==> key_step(s, Key::Down).0 == s,
        i > 0 ==> key_step(s, Key::Up).0 == (ClientView { selected: Some((i - 1) as usize), ..s }),
        i == 0 ==> key_step(s, Key::Up).0 == s,
        i + 1 < s.inventory_len ==> key_step(key_step(s, Key::Down).0, Key::Up).0 == s,
{
    if i + 1 < s.inventory_len {
        let s1 = ClientView { selected: Some((i + 1) as usize), ..s };
        assert(key_step(s, Key::Down).0 == s1);
        assert(saturating_sub((i + 1) as usize as int, 1) == i);
        assert(key_step(s1, Key::Up).0.selected == Some(i));
        assert(key_step(s1, Key::Up).0 == s);
    }
}

/// With the log focused and not typing, Up scrolls one line further back while
/// more than eleven lines lie below the view, and Down one line forward while
/// it is scrolled at all; nothing else changes.
pub proof fn lemma_log_scrolling(s: ClientView)
    requires
        client_wf(s),
        !s.chat_active,
        s.focus == Focus::Log,
    ensures
        s.chat_scroll + 11 < s.chats.len() ==> key_step(s, Key::Up) == (
            ClientView { chat_scroll: s.chat_scroll + 1, ..s },
            KeyOutcome::Continue,
        ),
        s.chat_scroll + 11 >= s.chats.len() ==> key_step(s, Key::Up) == (s, KeyOutcome::Continue),
        s.chat_scroll > 0 ==> key_step(s, Key::Down) == (
            ClientView { chat_scroll: s.chat_scroll - 1, ..s },
            KeyOutcome::Continue,
        ),
        s.chat_scroll <= 0 ==> key_step(s, Key::Down) == (s, KeyOutcome::Continue),
{
}

/// Editing the chat line: Enter starts typing; while typing, a character is
/// added, Backspace removes the last one, Esc stops typing and keeps the line,
/// and Enter sends a non-empty line to the log as the player's (`[Jon]: `
/// and the line) and empties it, or just stops typing when it is empty.
pub proof fn lemma_chat_editing(s: ClientView, c: char)
    ensures
        !s.chat_active ==> key_step(s, Key::Enter) == (
            ClientView { chat_active: true, ..s },
            KeyOutcome::Continue,
        ),
        s.chat_active ==> key_step(s, Key::Char(c)) == (
            ClientView { input: s.input.push(c), ..s },
            KeyOutcome::Continue,
        ),
        s.chat_active && s.input.len() > 0 ==> key_step(s, Key::Backspace) == (
            ClientView { input: s.input.subrange(0, s.input.len() - 1), ..s },
            KeyOutcome::Continue,
        ),
        s.chat_active ==> key_step(s, Key::Esc) == (
            ClientView { chat_active: false, ..s },
            KeyOutcome::Continue,
        ),
        s.chat_active && s.input.len() > 0 ==> key_step(s, Key::Enter) == (
            ClientView {
                chats: s.chats.push("[Jon]: "@ + s.input),
                input: Seq::<char>::empty(),
                chat_active: false,
                ..s
            },
            KeyOutcome::Continue,
        ),
        s.chat_active && s.input.len() == 0 ==> key_step(s, Key::Enter) == (
            ClientView { chat_active: false, ..s },
            KeyOutcome::Continue,
        ),
{
}

/// A map row has two characters per cell: the cell, then a space. A cell is
/// a wall `#` on the border, the player `@` at the centre, and floor `.`
/// everywhere else.
pub proof fn lemma_map_cells(w: int, h: int, x: int, y: int)
    requires
        0 <= w,
        0 <= x < w,
        0 <= y < h,
    ensures
        map_row(w, h, y).len() == 2 * w,
        map_row(w, h, y)[2 * x] == map_cell(w, h, x, y),
        map_row(w, h, y)[2 * x + 1] == ' ',
        (x == 0 || y == 0 || x == w - 1 || y == h - 1) ==> map_cell(w, h, x, y) == '#',
        !(x == 0 || y == 0 || x == w - 1 || y == h - 1) && x == w / 2 && y == h / 2 ==> map_cell(
            w,
            h,
            x,
            y,
        ) == '@',
        !(x == 0 || y == 0 || x == w - 1 || y == h - 1) && !(x == w / 2 && y == h / 2)
            ==> map_cell(w, h, x, y) == '.',
{
    assert((2 * x) % 2 == 0 && (2 * x) / 2 == x) by (nonlinear_arith);
    assert((2 * x + 1) % 2 == 1) by (nonlinear_arith);
}

} // verus!
