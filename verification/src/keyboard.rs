//! The virtual keyboard: layers, key grids, cursor, modifiers and the bytes
//! that each key sends to the shell.

use vstd::prelude::*;
use vstd::utf8::encode_utf8;
use crate::text::char_to_string;
use crate::text::char_to_bytes;
use crate::text::push_char;
use crate::text::push_hex2;
use crate::text::to_ascii_uppercase;
use crate::text::is_ascii_upper_char;
use crate::text::char_bytes;
use crate::text::ctrl_bytes;
use crate::text::ctrl_code;
use crate::text::ascii_upper;
use crate::text::is_ascii_letter;
use crate::text::is_ascii_lowercase;
use crate::text::hex2;

verus! {

/// The three key grids.
#[derive(Debug, Clone, Copy, PartialEq, Eq, Structural)]
pub enum Layer {
    Base,
    Numbers,
    Symbols,
}

/// The name a layer is shown under in the status bar.
pub open spec fn layer_name(l: Layer) -> Seq<char> {
    match l {
        Layer::Base => "BASE"@,
        Layer::Numbers => "NUMS"@,
        Layer::Symbols => "SYMS"@,
    }
}

impl Layer {
    pub fn name(&self) -> (n: &'static str)
        ensures
            n@ == layer_name(*self),
    {
        match self {
            Layer::Base => "BASE",
            Layer::Numbers => "NUMS",
            Layer::Symbols => "SYMS",
        }
    }
}

#[derive(Debug, Clone, Copy, PartialEq, Eq, Structural)]
pub enum Direction {
    Up,
    Down,
    Left,
    Right,
}

/// What pressing a key does.
#[derive(Debug, Clone, Copy, PartialEq, Eq)]
pub enum KeyAction {
    Char(char),
    Text(&'static str),
    Backspace,
    Enter,
    Space,
    Tab,
    Escape,
    ToggleShift,
    ToggleCtrl,
    SetLayer(Layer),
    Arrow(Direction),
    PageUp,
    PageDown,
    Home,
    End,
}

/// One key of a grid: the label drawn on it and its action.
#[derive(Debug, Clone)]
pub struct KeyDef {
    pub label: String,
    pub action: KeyAction,
}

/// A key as a mathematical value.
pub struct KeyView {
    pub label: Seq<char>,
    pub action: KeyAction,
}

impl View for KeyDef {
    type V = KeyView;

    open spec fn view(&self) -> KeyView {
        KeyView { label: self.label@, action: self.action }
    }
}

/// A key that types `c` and is labelled with it.
pub open spec fn char_key_view(c: char) -> KeyView {
    KeyView { label: seq![c], action: KeyAction::Char(c) }
}

/// A key with a label of its own.
pub open spec fn action_key_view(label: Seq<char>, action: KeyAction) -> KeyView {
    KeyView { label, action }
}

impl KeyDef {
    pub fn new_char(c: char) -> (k: Self)
        ensures
            k@ == char_key_view(c),
    {
        KeyDef { label: char_to_string(c), action: KeyAction::Char(c) }
    }

    pub fn new_action(label: &str, action: KeyAction) -> (k: Self)
        ensures
            k@ == action_key_view(label@, action),
    {
        KeyDef { label: String::from_str(label), action }
    }
}

// ---------------------------------------------------------------------------
// The grids
// ---------------------------------------------------------------------------

/// Base layer, unshifted characters, row by row.
pub open spec fn base_lower(r: int) -> Seq<char> {
    if r == 0 {
        seq!['1', '2', '3', '4', '5', '6', '7', '8', '9', '0', '-', '=']
    } else if r == 1 {
        seq!['q', 'w', 'e', 'r', 't', 'y', 'u', 'i', 'o', 'p', '[', ']']
    } else if r == 2 {
        seq!['a', 's', 'd', 'f', 'g', 'h', 'j', 'k', 'l', ';', '\'', '\\']
    } else {
        seq!['z', 'x', 'c', 'v', 'b', 'n', 'm', ',', '.', '/', '`', '_']
    }
}

/// Base layer, shifted characters, row by row.
pub open spec fn base_upper(r: int) -> Seq<char> {
    if r == 0 {
        seq!['!', '@', '#', '$', '%', '^', '&', '*', '(', ')', '_', '+']
    } else if r == 1 {
        seq!['Q', 'W', 'E', 'R', 'T', 'Y', 'U', 'I', 'O', 'P', '{', '}']
    } else if r == 2 {
        seq!['A', 'S', 'D', 'F', 'G', 'H', 'J', 'K', 'L', ':', '"', '|']
    } else {
        seq!['Z', 'X', 'C', 'V', 'B', 'N', 'M', '<', '>', '?', '~', '+']
    }
}

/// A base-layer key: it types the shifted or unshifted character; a letter
/// key shows `^` and its capital while Ctrl is held.
pub open spec fn base_key(r: int, c: int, shift: bool, ctrl: bool) -> KeyView {
    let lower = base_lower(r)[c];
    let upper = base_upper(r)[c];
    let ch = if shift { upper } else { lower };
    KeyView {
        label: if ctrl && is_ascii_lowercase(lower) { seq!['^', upper] } else { seq![ch] },
        action: KeyAction::Char(ch),
    }
}

pub open spec fn base_layout_view(shift: bool, ctrl: bool) -> Seq<Seq<KeyView>> {
    Seq::new(4, |r: int| Seq::new(12, |c: int| base_key(r, c, shift, ctrl)))
}

pub open spec fn numbers_layout_view() -> Seq<Seq<KeyView>> {
    seq![
        seq![
            char_key_view('1'), char_key_view('2'), char_key_view('3'),
            action_key_view(" ▲ "@, KeyAction::Arrow(Direction::Up)),
            action_key_view("PgUp"@, KeyAction::PageUp),
            action_key_view("Home"@, KeyAction::Home),
            char_key_view('+'), char_key_view('-'), char_key_view('*'),
            char_key_view('/'), char_key_view('='), char_key_view('%'),
        ],
        seq![
            char_key_view('4'), char_key_view('5'), char_key_view('6'),
            action_key_view(" ▼ "@, KeyAction::Arrow(Direction::Down)),
            action_key_view("PgDn"@, KeyAction::PageDown),
            action_key_view("End"@, KeyAction::End),
            char_key_view('('), char_key_view(')'), char_key_view('{'),
            char_key_view('}'), char_key_view('['), char_key_view(']'),
        ],
        seq![
            char_key_view('7'), char_key_view('8'), char_key_view('9'),
            action_key_view(" ◀ "@, KeyAction::Arrow(Direction::Left)),
            action_key_view(" ▶ "@, KeyAction::Arrow(Direction::Right)),
            char_key_view('_'), char_key_view('<'), char_key_view('>'),
            char_key_view('^'), char_key_view('&'), char_key_view('|'),
            char_key_view('~'),
        ],
        seq![
            char_key_view('0'), char_key_view('.'), char_key_view(','),
            char_key_view('!'), char_key_view('@'), char_key_view('#'),
            char_key_view('$'), char_key_view('\\'), char_key_view(':'),
            char_key_view(';'), char_key_view('"'), char_key_view('\''),
        ],
    ]
}

/// Symbols layer characters, row by row.
pub open spec fn symbols_chars(r: int) -> Seq<char> {
    if r == 0 {
        seq!['!', '@', '#', '$', '%', '^', '&', '*', '(', ')', '_', '+']
    } else if r == 1 {
        seq!['~', '`', '{', '}', '[', ']', '|', '\\', ':', ';', '"', '\'']
    } else if r == 2 {
        seq!['<', '>', '?', '/', '=', '-', '+', '*', '!', '@', '#', '$']
    } else {
        seq!['0', '1', '2', '3', '4', '5', '6', '7', '8', '9', ',', '.']
    }
}

pub open spec fn symbols_layout_view() -> Seq<Seq<KeyView>> {
    Seq::new(4, |r: int| Seq::new(12, |c: int| char_key_view(symbols_chars(r)[c])))
}

/// The grid shown for a layer and modifier state.
pub open spec fn layout_view(layer: Layer, shift: bool, ctrl: bool) -> Seq<Seq<KeyView>> {
    match layer {
        Layer::Base => base_layout_view(shift, ctrl),
        Layer::Numbers => numbers_layout_view(),
        Layer::Symbols => symbols_layout_view(),
    }
}

pub open spec fn row_view(row: Vec<KeyDef>) -> Seq<KeyView> {
    row@.map_values(|k: KeyDef| k@)
}

pub open spec fn rows_view(rows: Seq<Vec<KeyDef>>) -> Seq<Seq<KeyView>> {
    rows.map_values(|row: Vec<KeyDef>| row_view(row))
}

// ---------------------------------------------------------------------------
// Keyboard state
// ---------------------------------------------------------------------------

pub struct KeyboardState {
    pub cursor_row: usize,
    pub cursor_col: usize,
    pub active_layer: Layer,
    /// One-shot: cleared by the next character sent.
    pub shift_active: bool,
    /// Sticky until the next character sent.
    pub ctrl_active: bool,
    /// Whether the on-screen keyboard is shown.
    pub visible: bool,
    pub last_output_desc: String,
}

/// The keyboard state as a mathematical value.
pub struct KeyboardView {
    pub cursor_row: usize,
    pub cursor_col: usize,
    pub layer: Layer,
    pub shift: bool,
    pub ctrl: bool,
    pub visible: bool,
    pub desc: Seq<char>,
}

impl View for KeyboardState {
    type V = KeyboardView;

    open spec fn view(&self) -> KeyboardView {
        KeyboardView {
            cursor_row: self.cursor_row,
            cursor_col: self.cursor_col,
            layer: self.active_layer,
            shift: self.shift_active,
            ctrl: self.ctrl_active,
            visible: self.visible,
            desc: self.last_output_desc@,
        }
    }
}

/// The grid that a state shows.
pub open spec fn current_layout(s: KeyboardView) -> Seq<Seq<KeyView>> {
    layout_view(s.layer, s.shift, s.ctrl)
}

/// A fresh keyboard: cursor on the second row, base layer, no modifier, shown.
pub open spec fn initial_view() -> KeyboardView {
    KeyboardView {
        cursor_row: 1,
        cursor_col: 0,
        layer: Layer::Base,
        shift: false,
        ctrl: false,
        visible: true,
        desc: "Ready"@,
    }
}

/// The grid has four rows of twelve keys, whatever the layer and modifiers.
pub proof fn lemma_layout_shape(layer: Layer, shift: bool, ctrl: bool)
    ensures
        layout_view(layer, shift, ctrl).len() == 4,
        forall|r: int| 0 <= r < 4 ==> #[trigger] layout_view(layer, shift, ctrl)[r].len() == 12,
{
    assert(numbers_layout_view()[0].len() == 12);
    assert(numbers_layout_view()[1].len() == 12);
    assert(numbers_layout_view()[2].len() == 12);
    assert(numbers_layout_view()[3].len() == 12);
}

pub open spec fn min_int(a: int, b: int) -> int {
    if a <= b { a } else { b }
}

/// The inputs on which `move_cursor` runs without indexing outside the grid
/// or overflowing.
pub open spec fn can_move(s: KeyboardView, dir: Direction) -> bool {
    let n = current_layout(s).len();
    match dir {
        Direction::Up => s.cursor_row <= n,
        Direction::Down => s.cursor_row < usize::MAX,
        Direction::Left => s.cursor_row < n,
        Direction::Right => s.cursor_row < n && s.cursor_col < usize::MAX,
    }
}

/// The cursor after one step: rows and columns wrap around, and the column
/// is clamped to the width of the row the cursor ends on.
pub open spec fn moved(s: KeyboardView, dir: Direction) -> KeyboardView {
    let lay = current_layout(s);
    let n = lay.len() as int;
    let row: int = match dir {
        Direction::Up => if s.cursor_row == 0 { n - 1 } else { s.cursor_row - 1 },
        Direction::Down => (s.cursor_row + 1) % n,
        _ => s.cursor_row as int,
    };
    let m = lay[row].len() as int;
    let col: int = match dir {
        Direction::Left => if s.cursor_col == 0 { m - 1 } else { min_int(s.cursor_col - 1, m - 1) },
        Direction::Right => (s.cursor_col + 1) % m,
        _ => min_int(s.cursor_col as int, m - 1),
    };
    KeyboardView { cursor_row: row as usize, cursor_col: col as usize, ..s }
}

pub open spec fn with_desc(s: KeyboardView, desc: Seq<char>) -> KeyboardView {
    KeyboardView { desc, ..s }
}

/// Shift and Ctrl released, with a new status line.
pub open spec fn cleared_mods(s: KeyboardView, desc: Seq<char>) -> KeyboardView {
    KeyboardView { shift: false, ctrl: false, desc, ..s }
}

pub open spec fn toggled_shift(s: KeyboardView) -> KeyboardView {
    KeyboardView {
        shift: !s.shift,
        desc: if !s.shift { "Shift: ON"@ } else { "Shift: OFF"@ },
        ..s
    }
}

pub open spec fn toggled_ctrl(s: KeyboardView) -> KeyboardView {
    KeyboardView {
        ctrl: !s.ctrl,
        desc: if !s.ctrl { "Ctrl: ON"@ } else { "Ctrl: OFF"@ },
        ..s
    }
}

pub open spec fn on_layer(s: KeyboardView, l: Layer) -> KeyboardView {
    KeyboardView { layer: l, cursor_row: 0, cursor_col: 0, desc: "Layer: "@ + layer_name(l), ..s }
}

/// Selecting the active layer again returns to the base layer.
pub open spec fn switched_layer(s: KeyboardView, l: Layer) -> KeyboardView {
    on_layer(s, if s.layer == l { Layer::Base } else { l })
}

/// R1 cycles Base, Numbers, Symbols.
pub open spec fn next_layer(l: Layer) -> Layer {
    match l {
        Layer::Base => Layer::Numbers,
        Layer::Numbers => Layer::Symbols,
        Layer::Symbols => Layer::Base,
    }
}

pub open spec fn toggled_visibility(s: KeyboardView) -> KeyboardView {
    KeyboardView {
        visible: !s.visible,
        desc: if !s.visible { "Keyboard: SHOWN"@ } else { "Keyboard: HIDDEN"@ },
        ..s
    }
}

/// The key under the cursor, if the cursor is on the grid.
pub open spec fn selected_view(s: KeyboardView) -> Option<KeyView> {
    let lay = current_layout(s);
    if s.cursor_row < lay.len() && s.cursor_col < lay[s.cursor_row as int].len() {
        Some(lay[s.cursor_row as int][s.cursor_col as int])
    } else {
        None
    }
}

pub open spec fn opt_key_view(k: Option<KeyDef>) -> Option<KeyView> {
    match k {
        Some(k) => Some(k@),
        None => None,
    }
}

pub open spec fn opt_bytes_view(b: Option<Vec<u8>>) -> Option<Seq<u8>> {
    match b {
        Some(v) => Some(v@),
        None => None,
    }
}

/// The status line after a character was sent.
pub open spec fn char_desc(c: char, ctrl: bool) -> Seq<char> {
    if ctrl && is_ascii_letter(c) {
        "Sent: ^"@ + seq![ascii_upper(c)] + " (0x"@ + hex2(ctrl_code(c)) + ")"@
    } else {
        "Sent: '"@ + seq![c] + "'"@
    }
}

/// The escape sequence of an arrow key.
pub open spec fn arrow_bytes(d: Direction) -> Seq<u8> {
    match d {
        Direction::Up => seq![0x1Bu8, 0x5Bu8, 0x41u8],
        Direction::Down => seq![0x1Bu8, 0x5Bu8, 0x42u8],
        Direction::Right => seq![0x1Bu8, 0x5Bu8, 0x43u8],
        Direction::Left => seq![0x1Bu8, 0x5Bu8, 0x44u8],
    }
}

/// What an action does to the keyboard and which bytes it sends.
/// Text keys (characters, text, space, enter) release Shift and Ctrl;
/// editing keys keep them; arrows and paging keys change nothing.
pub open spec fn action_outcome(s: KeyboardView, a: KeyAction) -> (KeyboardView, Option<Seq<u8>>) {
    match a {
        KeyAction::Char(c) => (
            cleared_mods(s, char_desc(c, s.ctrl)),
            Some(if s.ctrl { ctrl_bytes(c) } else { char_bytes(c) }),
        ),
        KeyAction::Text(t) => (
            cleared_mods(s, "Sent text: \""@ + t@ + "\""@),
            Some(encode_utf8(t@)),
        ),
        KeyAction::Space => (cleared_mods(s, "Sent: Space"@), Some(seq![0x20u8])),
        KeyAction::Backspace => (with_desc(s, "Sent: Backspace"@), Some(seq![0x7Fu8])),
        KeyAction::Enter => (cleared_mods(s, "Sent: Enter"@), Some(seq![0x0Du8])),
        KeyAction::Tab => (with_desc(s, "Sent: Tab"@), Some(seq![0x09u8])),
        KeyAction::Escape => (with_desc(s, "Sent: Escape"@), Some(seq![0x1Bu8])),
        KeyAction::ToggleShift => (toggled_shift(s), None),
        KeyAction::ToggleCtrl => (toggled_ctrl(s), None),
        KeyAction::SetLayer(l) => (switched_layer(s, l), None),
        KeyAction::Arrow(d) => (s, Some(arrow_bytes(d))),
        KeyAction::PageUp => (s, Some(seq![0x1Bu8, 0x5Bu8, 0x35u8, 0x7Eu8])),
        KeyAction::PageDown => (s, Some(seq![0x1Bu8, 0x5Bu8, 0x36u8, 0x7Eu8])),
        KeyAction::Home => (s, Some(seq![0x1Bu8, 0x5Bu8, 0x48u8])),
        KeyAction::End => (s, Some(seq![0x1Bu8, 0x5Bu8, 0x46u8])),
    }
}

/// Pressing the key under the cursor; nothing happens off the grid.
pub open spec fn select_outcome(s: KeyboardView) -> (KeyboardView, Option<Seq<u8>>) {
    match selected_view(s) {
        Some(k) => action_outcome(s, k.action),
        None => (s, None),
    }
}

/// The width of a drawn key: its label's UTF-8 length plus one space on
/// each side.
pub open spec fn key_width(k: KeyView) -> int {
    encode_utf8(k.label).len() + 2int
}

/// The column at which key `i` of a row starts; keys are one column apart.
pub open spec fn key_x(keys: Seq<KeyView>, i: int) -> int
    decreases i,
{
    if i <= 0 {
        0
    } else {
        key_x(keys, i - 1) + key_width(keys[i - 1]) + 1
    }
}

/// Whether screen column `col` lies on key `i` of a row.
pub open spec fn key_covers(keys: Seq<KeyView>, i: int, col: int) -> bool {
    key_x(keys, i) <= col < key_x(keys, i) + key_width(keys[i])
}

/// Keys start further right the further along the row they are.
pub proof fn lemma_key_x_monotone(keys: Seq<KeyView>, i: int, j: int)
    requires
        0 <= i <= j,
    ensures
        key_x(keys, i) <= key_x(keys, j),
    decreases j - i,
{
    if i < j {
        lemma_key_x_monotone(keys, i, j - 1);
    }
}

/// No screen column lies on two keys of a row.
pub proof fn lemma_covers_unique(keys: Seq<KeyView>, i: int, j: int, col: int)
    requires
        0 <= i,
        0 <= j,
        key_covers(keys, i, col),
        key_covers(keys, j, col),
    ensures
        i == j,
{
    if i < j {
        lemma_key_x_monotone(keys, i + 1, j);
    } else if j < i {
        lemma_key_x_monotone(keys, j + 1, i);
    }
}

/// The key at a screen position: the row below `start_row` and the one key
/// of that row whose drawn span holds the column; none while the keyboard
/// is hidden or off the grid.
pub open spec fn hit_key(s: KeyboardView, col: u16, row: u16, start_row: u16) -> Option<(usize, usize)> {
    let lay = current_layout(s);
    if s.visible && start_row <= row && row - start_row < lay.len() {
        let keys = lay[row - start_row];
        if exists|i: int| 0 <= i < keys.len() && key_covers(keys, i, col as int) {
            Some((
                (row - start_row) as usize,
                (choose|i: int| 0 <= i < keys.len() && key_covers(keys, i, col as int)) as usize,
            ))
        } else {
            None
        }
    } else {
        None
    }
}

/// The state after a tap on `(r, c)` moved the cursor there.
pub open spec fn with_cursor(s: KeyboardView, r: usize, c: usize) -> KeyboardView {
    KeyboardView { cursor_row: r, cursor_col: c, ..s }
}

pub proof fn lemma_encode_utf8_len(s: Seq<char>)
    ensures
        encode_utf8(s).len() <= 4 * s.len(),
    decreases s.len(),
{
    if s.len() > 0 {
        lemma_encode_utf8_len(s.drop_first());
    }
}

/// Every label on every grid has at most four characters.
pub proof fn lemma_label_lengths(layer: Layer, shift: bool, ctrl: bool)
    ensures
        forall|r: int, c: int|
            0 <= r < 4 && 0 <= c < 12 ==> #[trigger] layout_view(layer, shift, ctrl)[r][c].label.len() <= 4,
{
    lemma_layout_shape(layer, shift, ctrl);
    reveal_strlit(" ▲ ");
    reveal_strlit(" ▼ ");
    reveal_strlit(" ◀ ");
    reveal_strlit(" ▶ ");
    reveal_strlit("PgUp");
    reveal_strlit("PgDn");
    reveal_strlit("Home");
    reveal_strlit("End");
    let lay = layout_view(layer, shift, ctrl);
    assert forall|r: int, c: int| 0 <= r < 4 && 0 <= c < 12 implies #[trigger] lay[r][c].label.len() <= 4 by {
        if layer == Layer::Numbers {
            assert(r == 0 || r == 1 || r == 2 || r == 3);
        }
    }
}

/// Every key on every grid is at most 18 columns wide.
pub proof fn lemma_key_widths(layer: Layer, shift: bool, ctrl: bool)
    ensures
        forall|r: int, c: int|
            0 <= r < 4 && 0 <= c < 12 ==> 2 <= #[trigger] key_width(layout_view(layer, shift, ctrl)[r][c]) <= 18,
{
    lemma_label_lengths(layer, shift, ctrl);
    assert forall|r: int, c: int| 0 <= r < 4 && 0 <= c < 12 implies 2 <= #[trigger] key_width(layout_view(layer, shift, ctrl)[r][c]) <= 18 by {
        lemma_encode_utf8_len(layout_view(layer, shift, ctrl)[r][c].label);
    }
}

proof fn lemma_key_x_bound(keys: Seq<KeyView>, i: int)
    requires
        0 <= i <= keys.len(),
        forall|j: int| 0 <= j < keys.len() ==> #[trigger] key_width(keys[j]) <= 18,
    ensures
        0 <= key_x(keys, i) <= 19 * i,
    decreases i,
{
    if i > 0 {
        lemma_key_x_bound(keys, i - 1);
    }
}

impl Default for KeyboardState {
    fn default() -> (s: Self)
        ensures
            s@ == initial_view(),
    {
        KeyboardState {
            cursor_row: 1,
            cursor_col: 0,
            active_layer: Layer::Base,
            shift_active: false,
            ctrl_active: false,
            visible: true,
            last_output_desc: String::from_str("Ready"),
        }
    }
}

impl KeyboardState {
    pub fn new() -> (s: Self)
        ensures
            s@ == initial_view(),
    {
        Self::default()
    }

    pub fn get_layout(&self) -> (l: Vec<Vec<KeyDef>>)
        ensures
            rows_view(l@) == current_layout(self@),
    {
        match self.active_layer {
            Layer::Base => self.base_layout(),
            Layer::Numbers => self.numbers_layout(),
            Layer::Symbols => self.symbols_layout(),
        }
    }

    fn base_layout(&self) -> (l: Vec<Vec<KeyDef>>)
        ensures
            rows_view(l@) == base_layout_view(self.shift_active, self.ctrl_active),
    {
        let shift = self.shift_active;
        let row0 = vec![
            KeyDef::new_char(if shift { '!' } else { '1' }),
            KeyDef::new_char(if shift { '@' } else { '2' }),
            KeyDef::new_char(if shift { '#' } else { '3' }),
            KeyDef::new_char(if shift { '$' } else { '4' }),
            KeyDef::new_char(if shift { '%' } else { '5' }),
            KeyDef::new_char(if shift { '^' } else { '6' }),
            KeyDef::new_char(if shift { '&' } else { '7' }),
            KeyDef::new_char(if shift { '*' } else { '8' }),
            KeyDef::new_char(if shift { '(' } else { '9' }),
            KeyDef::new_char(if shift { ')' } else { '0' }),
            KeyDef::new_char(if shift { '_' } else { '-' }),
            KeyDef::new_char(if shift { '+' } else { '=' }),
        ];
        assert(row_view(row0) =~= Seq::new(12, |c: int| base_key(0, c, self.shift_active, self.ctrl_active)));
        let row1 = vec![
            self.char_key('q', 'Q'),
            self.char_key('w', 'W'),
            self.char_key('e', 'E'),
            self.char_key('r', 'R'),
            self.char_key('t', 'T'),
            self.char_key('y', 'Y'),
            self.char_key('u', 'U'),
            self.char_key('i', 'I'),
            self.char_key('o', 'O'),
            self.char_key('p', 'P'),
            KeyDef::new_char(if shift { '{' } else { '[' }),
            KeyDef::new_char(if shift { '}' } else { ']' }),
        ];
        assert(row_view(row1) =~= Seq::new(12, |c: int| base_key(1, c, self.shift_active, self.ctrl_active)));
        let row2 = vec![
            self.char_key('a', 'A'),
            self.char_key('s', 'S'),
            self.char_key('d', 'D'),
            self.char_key('f', 'F'),
            self.char_key('g', 'G'),
            self.char_key('h', 'H'),
            self.char_key('j', 'J'),
            self.char_key('k', 'K'),
            self.char_key('l', 'L'),
            KeyDef::new_char(if shift { ':' } else { ';' }),
            KeyDef::new_char(if shift { '"' } else { '\'' }),
            KeyDef::new_char(if shift { '|' } else { '\\' }),
        ];
        assert(row_view(row2) =~= Seq::new(12, |c: int| base_key(2, c, self.shift_active, self.ctrl_active)));
        let row3 = vec![
            self.char_key('z', 'Z'),
            self.char_key('x', 'X'),
            self.char_key('c', 'C'),
            self.char_key('v', 'V'),
            self.char_key('b', 'B'),
            self.char_key('n', 'N'),
            self.char_key('m', 'M'),
            KeyDef::new_char(if shift { '<' } else { ',' }),
            KeyDef::new_char(if shift { '>' } else { '.' }),
            KeyDef::new_char(if shift { '?' } else { '/' }),
            KeyDef::new_char(if shift { '~' } else { '`' }),
            KeyDef::new_char(if shift { '+' } else { '_' }),
        ];
        assert(row_view(row3) =~= Seq::new(12, |c: int| base_key(3, c, self.shift_active, self.ctrl_active)));
        let l = vec![row0, row1, row2, row3];
        assert(rows_view(l@) =~= base_layout_view(self.shift_active, self.ctrl_active));
        l
    }

    fn numbers_layout(&self) -> (l: Vec<Vec<KeyDef>>)
        ensures
            rows_view(l@) == numbers_layout_view(),
    {
        let row0 = vec![
            KeyDef::new_char('1'), KeyDef::new_char('2'), KeyDef::new_char('3'),
            KeyDef::new_action(" ▲ ", KeyAction::Arrow(Direction::Up)),
            KeyDef::new_action("PgUp", KeyAction::PageUp),
            KeyDef::new_action("Home", KeyAction::Home),
            KeyDef::new_char('+'), KeyDef::new_char('-'), KeyDef::new_char('*'),
            KeyDef::new_char('/'), KeyDef::new_char('='), KeyDef::new_char('%'),
        ];
        let row1 = vec![
            KeyDef::new_char('4'), KeyDef::new_char('5'), KeyDef::new_char('6'),
            KeyDef::new_action(" ▼ ", KeyAction::Arrow(Direction::Down)),
            KeyDef::new_action("PgDn", KeyAction::PageDown),
            KeyDef::new_action("End", KeyAction::End),
            KeyDef::new_char('('), KeyDef::new_char(')'), KeyDef::new_char('{'),
            KeyDef::new_char('}'), KeyDef::new_char('['), KeyDef::new_char(']'),
        ];
        let row2 = vec![
            KeyDef::new_char('7'), KeyDef::new_char('8'), KeyDef::new_char('9'),
            KeyDef::new_action(" ◀ ", KeyAction::Arrow(Direction::Left)),
            KeyDef::new_action(" ▶ ", KeyAction::Arrow(Direction::Right)),
            KeyDef::new_char('_'), KeyDef::new_char('<'), KeyDef::new_char('>'),
            KeyDef::new_char('^'), KeyDef::new_char('&'), KeyDef::new_char('|'),
            KeyDef::new_char('~'),
        ];
        let row3 = vec![
            KeyDef::new_char('0'), KeyDef::new_char('.'), KeyDef::new_char(','),
            KeyDef::new_char('!'), KeyDef::new_char('@'), KeyDef::new_char('#'),
            KeyDef::new_char('$'), KeyDef::new_char('\\'), KeyDef::new_char(':'),
            KeyDef::new_char(';'), KeyDef::new_char('"'), KeyDef::new_char('\''),
        ];
        assert(row_view(row0) =~= numbers_layout_view()[0]);
        assert(row_view(row1) =~= numbers_layout_view()[1]);
        assert(row_view(row2) =~= numbers_layout_view()[2]);
        assert(row_view(row3) =~= numbers_layout_view()[3]);
        let l = vec![row0, row1, row2, row3];
        assert(rows_view(l@) =~= numbers_layout_view());
        l
    }

    fn symbols_layout(&self) -> (l: Vec<Vec<KeyDef>>)
        ensures
            rows_view(l@) == symbols_layout_view(),
    {
        let row0 = vec![
            KeyDef::new_char('!'), KeyDef::new_char('@'), KeyDef::new_char('#'),
            KeyDef::new_char('$'), KeyDef::new_char('%'), KeyDef::new_char('^'),
            KeyDef::new_char('&'), KeyDef::new_char('*'), KeyDef::new_char('('),
            KeyDef::new_char(')'), KeyDef::new_char('_'), KeyDef::new_char('+'),
        ];
        let row1 = vec![
            KeyDef::new_char('~'), KeyDef::new_char('`'), KeyDef::new_char('{'),
            KeyDef::new_char('}'), KeyDef::new_char('['), KeyDef::new_char(']'),
            KeyDef::new_char('|'), KeyDef::new_char('\\'), KeyDef::new_char(':'),
            KeyDef::new_char(';'), KeyDef::new_char('"'), KeyDef::new_char('\''),
        ];
        let row2 = vec![
            KeyDef::new_char('<'), KeyDef::new_char('>'), KeyDef::new_char('?'),
            KeyDef::new_char('/'), KeyDef::new_char('='), KeyDef::new_char('-'),
            KeyDef::new_char('+'), KeyDef::new_char('*'), KeyDef::new_char('!'),
            KeyDef::new_char('@'), KeyDef::new_char('#'), KeyDef::new_char('$'),
        ];
        let row3 = vec![
            KeyDef::new_char('0'), KeyDef::new_char('1'), KeyDef::new_char('2'),
            KeyDef::new_char('3'), KeyDef::new_char('4'), KeyDef::new_char('5'),
            KeyDef::new_char('6'), KeyDef::new_char('7'), KeyDef::new_char('8'),
            KeyDef::new_char('9'), KeyDef::new_char(','), KeyDef::new_char('.'),
        ];
        assert(row_view(row0) =~= symbols_layout_view()[0]);
        assert(row_view(row1) =~= symbols_layout_view()[1]);
        assert(row_view(row2) =~= symbols_layout_view()[2]);
        assert(row_view(row3) =~= symbols_layout_view()[3]);
        let l = vec![row0, row1, row2, row3];
        assert(rows_view(l@) =~= symbols_layout_view());
        l
    }

    pub fn move_cursor(&mut self, dir: Direction)
        requires
            can_move(old(self)@, dir),
        ensures
            final(self)@ == moved(old(self)@, dir),
    {
        let layout = self.get_layout();
        proof {
            lemma_layout_shape(self.active_layer, self.shift_active, self.ctrl_active);
            assert(forall|i: int| 0 <= i < layout@.len() ==> #[trigger] layout@[i]@.len() == rows_view(layout@)[i].len());
        }
        let row_count = layout.len();
        if row_count == 0 {
            return;
        }
        match dir {
            Direction::Up => {
                if self.cursor_row == 0 {
                    self.cursor_row = row_count - 1;
                } else {
                    self.cursor_row -= 1;
                }
            },
            Direction::Down => {
                self.cursor_row = (self.cursor_row + 1) % row_count;
            },
            Direction::Left => {
                let col_count = layout[self.cursor_row].len();
                if col_count > 0 {
                    if self.cursor_col == 0 {
                        self.cursor_col = col_count - 1;
                    } else {
                        self.cursor_col -= 1;
                    }
                }
            },
            Direction::Right => {
                let col_count = layout[self.cursor_row].len();
                if col_count > 0 {
                    self.cursor_col = (self.cursor_col + 1) % col_count;
                }
            },
        }
        let current_cols = layout[self.cursor_row].len();
        if current_cols > 0 && self.cursor_col >= current_cols {
            self.cursor_col = current_cols - 1;
        }
    }

    pub fn toggle_shift(&mut self)
        ensures
            final(self)@ == toggled_shift(old(self)@),
    {
        self.shift_active = !self.shift_active;
        self.last_output_desc = if self.shift_active {
            String::from_str("Shift: ON")
        } else {
            String::from_str("Shift: OFF")
        };
    }

    pub fn toggle_ctrl(&mut self)
        ensures
            final(self)@ == toggled_ctrl(old(self)@),
    {
        self.ctrl_active = !self.ctrl_active;
        self.last_output_desc = if self.ctrl_active {
            String::from_str("Ctrl: ON")
        } else {
            String::from_str("Ctrl: OFF")
        };
    }

    pub fn switch_to_layer(&mut self, layer: Layer)
        ensures
            final(self)@ == switched_layer(old(self)@, layer),
    {
        if self.active_layer == layer {
            self.active_layer = Layer::Base;
        } else {
            self.active_layer = layer;
        }
        self.cursor_row = 0;
        self.cursor_col = 0;
        let mut desc = String::from_str("Layer: ");
        desc.append(self.active_layer.name());
        self.last_output_desc = desc;
    }

    pub fn toggle_l1(&mut self)
        ensures
            final(self)@ == switched_layer(old(self)@, Layer::Symbols),
    {
        self.switch_to_layer(Layer::Symbols);
    }

    pub fn toggle_r1(&mut self)
        ensures
            final(self)@ == on_layer(old(self)@, next_layer(old(self).active_layer)),
    {
        self.active_layer = match self.active_layer {
            Layer::Base => Layer::Numbers,
            Layer::Numbers => Layer::Symbols,
            Layer::Symbols => Layer::Base,
        };
        self.cursor_row = 0;
        self.cursor_col = 0;
        let mut desc = String::from_str("Layer: ");
        desc.append(self.active_layer.name());
        self.last_output_desc = desc;
    }

    pub fn selected_key(&self) -> (k: Option<KeyDef>)
        ensures
            opt_key_view(k) == selected_view(self@),
    {
        let mut layout = self.get_layout();
        if self.cursor_row < layout.len() {
            let mut row = layout.remove(self.cursor_row);
            assert(row@.map_values(|k: KeyDef| k@) == current_layout(self@)[self.cursor_row as int]);
            if self.cursor_col < row.len() {
                let k = row.remove(self.cursor_col);
                return Some(k);
            }
        }
        None
    }

    /// Evaluates an action and returns the bytes to send to the shell.
    pub fn process_action(&mut self, action: KeyAction) -> (r: Option<Vec<u8>>)
        ensures
            (final(self)@, opt_bytes_view(r)) == action_outcome(old(self)@, action),
    {
        match action {
            KeyAction::Char(c) => {
                let bytes = if self.ctrl_active {
                    let upper = to_ascii_uppercase(c);
                    if is_ascii_upper_char(upper) {
                        let ctrl_code: u8 = (upper as u8) - 64;
                        assert(is_ascii_letter(c));
                        assert(ctrl_code == crate::text::ctrl_code(c));
                        let mut desc = String::from_str("Sent: ^");
                        push_char(&mut desc, upper);
                        desc.append(" (0x");
                        push_hex2(&mut desc, ctrl_code);
                        desc.append(")");
                        self.last_output_desc = desc;
                        assert(self.last_output_desc@ == char_desc(c, true));
                        let v = vec![ctrl_code];
                        assert(v@ == ctrl_bytes(c));
                        v
                    } else {
                        assert(!is_ascii_letter(c));
                        self.last_output_desc = quoted_char_desc(c);
                        char_to_bytes(c)
                    }
                } else {
                    self.last_output_desc = quoted_char_desc(c);
                    char_to_bytes(c)
                };
                self.shift_active = false;
                self.ctrl_active = false;
                Some(bytes)
            },
            KeyAction::Text(txt) => {
                let mut desc = String::from_str("Sent text: \"");
                desc.append(txt);
                desc.append("\"");
                self.last_output_desc = desc;
                self.shift_active = false;
                self.ctrl_active = false;
                Some(txt.as_bytes_vec())
            },
            KeyAction::Space => {
                self.last_output_desc = String::from_str("Sent: Space");
                self.shift_active = false;
                self.ctrl_active = false;
                Some(vec![0x20u8])
            },
            KeyAction::Backspace => {
                self.last_output_desc = String::from_str("Sent: Backspace");
                Some(vec![0x7Fu8])
            },
            KeyAction::Enter => {
                self.last_output_desc = String::from_str("Sent: Enter");
                self.shift_active = false;
                self.ctrl_active = false;
                Some(vec![0x0Du8])
            },
            KeyAction::Tab => {
                self.last_output_desc = String::from_str("Sent: Tab");
                Some(vec![0x09u8])
            },
            KeyAction::Escape => {
                self.last_output_desc = String::from_str("Sent: Escape");
                Some(vec![0x1Bu8])
            },
            KeyAction::ToggleShift => {
                self.toggle_shift();
                None
            },
            KeyAction::ToggleCtrl => {
                self.toggle_ctrl();
                None
            },
            KeyAction::SetLayer(l) => {
                self.switch_to_layer(l);
                None
            },
            KeyAction::Arrow(Direction::Up) => Some(vec![0x1Bu8, 0x5Bu8, 0x41u8]),
            KeyAction::Arrow(Direction::Down) => Some(vec![0x1Bu8, 0x5Bu8, 0x42u8]),
            KeyAction::Arrow(Direction::Right) => Some(vec![0x1Bu8, 0x5Bu8, 0x43u8]),
            KeyAction::Arrow(Direction::Left) => Some(vec![0x1Bu8, 0x5Bu8, 0x44u8]),
            KeyAction::PageUp => Some(vec![0x1Bu8, 0x5Bu8, 0x35u8, 0x7Eu8]),
            KeyAction::PageDown => Some(vec![0x1Bu8, 0x5Bu8, 0x36u8, 0x7Eu8]),
            KeyAction::Home => Some(vec![0x1Bu8, 0x5Bu8, 0x48u8]),
            KeyAction::End => Some(vec![0x1Bu8, 0x5Bu8, 0x46u8]),
        }
    }

    pub fn press_select(&mut self) -> (r: Option<Vec<u8>>)
        ensures
            (final(self)@, opt_bytes_view(r)) == select_outcome(old(self)@),
    {
        if let Some(key) = self.selected_key() {
            self.process_action(key.action)
        } else {
            None
        }
    }

    pub fn toggle_visibility(&mut self) -> (v: bool)
        ensures
            final(self)@ == toggled_visibility(old(self)@),
            v == final(self).visible,
    {
        self.visible = !self.visible;
        self.last_output_desc = if self.visible {
            String::from_str("Keyboard: SHOWN")
        } else {
            String::from_str("Keyboard: HIDDEN")
        };
        self.visible
    }

    /// Determines whether screen position (col, row) lies on a key of the
    /// grid drawn from row `start_row` down.
    pub fn hit_test(&self, col: u16, row: u16, start_row: u16) -> (r: Option<(usize, usize)>)
        ensures
            r == hit_key(self@, col, row, start_row),
    {
        let r = self.find_hit(col, row, start_row);
        proof {
            let lay = current_layout(self@);
            if self.visible && start_row <= row && row - start_row < lay.len() {
                let keys = lay[row - start_row];
                match r {
                    Some((ri, ci)) => {
                        let i = choose|i: int| 0 <= i < keys.len() && key_covers(keys, i, col as int);
                        lemma_covers_unique(keys, i, ci as int, col as int);
                    },
                    None => {},
                }
            }
        }
        r
    }

    fn find_hit(&self, col: u16, row: u16, start_row: u16) -> (r: Option<(usize, usize)>)
        ensures
            match r {
                Some((ri, ci)) => {
                    &&& self.visible
                    &&& start_row <= row
                    &&& ri == row - start_row
                    &&& ri < current_layout(self@).len()
                    &&& ci < current_layout(self@)[ri as int].len()
                    &&& key_covers(current_layout(self@)[ri as int], ci as int, col as int)
                },
                None => {
                    ||| !self.visible
                    ||| row < start_row
                    ||| row - start_row >= current_layout(self@).len()
                    ||| forall|i: int|
                        0 <= i < current_layout(self@)[row - start_row].len()
                            ==> !#[trigger] key_covers(current_layout(self@)[row - start_row], i, col as int)
                },
            },
    {
        if !self.visible || row < start_row {
            return None;
        }
        let r_idx = (row - start_row) as usize;
        let layout = self.get_layout();
        if r_idx >= layout.len() {
            return None;
        }
        let ghost lay = current_layout(self@);
        proof {
            lemma_layout_shape(self.active_layer, self.shift_active, self.ctrl_active);
            lemma_key_widths(self.active_layer, self.shift_active, self.ctrl_active);
            assert(layout@[r_idx as int]@.map_values(|k: KeyDef| k@) == lay[r_idx as int]);
        }
        let keys = &layout[r_idx];
        let mut cur_x: u16 = 0;
        let mut c_idx: usize = 0;
        while c_idx < keys.len()
            invariant
                self.visible,
                start_row <= row,
                r_idx == row - start_row,
                lay == current_layout(self@),
                0 <= r_idx < 4,
                lay.len() == 4,
                keys@.len() == 12,
                keys@.map_values(|k: KeyDef| k@) == lay[r_idx as int],
                forall|j: int| 0 <= j < 12 ==> 2 <= #[trigger] key_width(lay[r_idx as int][j]) <= 18,
                0 <= c_idx <= 12,
                cur_x == key_x(lay[r_idx as int], c_idx as int),
                forall|j: int| 0 <= j < c_idx ==> !#[trigger] key_covers(lay[r_idx as int], j, col as int),
            decreases 12 - c_idx,
        {
            proof {
                lemma_key_x_bound(lay[r_idx as int], c_idx as int);
                assert(keys@[c_idx as int]@ == lay[r_idx as int][c_idx as int]);
            }
            let label_str = keys[c_idx].label.as_str();
            let label_len = label_str.len();
            assert(label_len == key_width(lay[r_idx as int][c_idx as int]) - 2);
            let key_width: u16 = (label_len + 2) as u16;
            let end_x = cur_x + key_width;
            if col >= cur_x && col < end_x {
                assert(key_covers(lay[r_idx as int], c_idx as int, col as int));
                assert(c_idx < lay[r_idx as int].len());
                return Some((r_idx, c_idx));
            }
            cur_x = end_x + 1;
            c_idx += 1;
        }
        None
    }

    /// Selects and triggers the key at (r_idx, c_idx), as a tap on a touch
    /// screen does.
    pub fn tap_key(&mut self, r_idx: usize, c_idx: usize) -> (r: Option<Vec<u8>>)
        ensures
            if r_idx < current_layout(old(self)@).len() && c_idx < current_layout(old(self)@)[r_idx as int].len() {
                (final(self)@, opt_bytes_view(r)) == select_outcome(with_cursor(old(self)@, r_idx, c_idx))
            } else {
                final(self)@ == old(self)@ && r is None
            },
    {
        let layout = self.get_layout();
        proof {
            assert(r_idx < layout@.len() ==> layout@[r_idx as int]@.len() == rows_view(layout@)[r_idx as int].len());
        }
        if r_idx < layout.len() && c_idx < layout[r_idx].len() {
            self.cursor_row = r_idx;
            self.cursor_col = c_idx;
            self.press_select()
        } else {
            None
        }
    }

    fn char_key(&self, lower: char, upper: char) -> (k: KeyDef)
        ensures
            k@ == (KeyView {
                label: if self.ctrl_active {
                    seq!['^', upper]
                } else {
                    seq![if self.shift_active { upper } else { lower }]
                },
                action: KeyAction::Char(if self.shift_active { upper } else { lower }),
            }),
    {
        let ch = if self.shift_active { upper } else { lower };
        let mut label = char_to_string(ch);
        if self.ctrl_active {
            label = String::from_str("^");
            proof {
                reveal_strlit("^");
            }
            push_char(&mut label, upper);
            assert(label@ =~= seq!['^', upper]);
        }
        KeyDef { label, action: KeyAction::Char(ch) }
    }
}

/// The status line `Sent: 'c'`.
fn quoted_char_desc(c: char) -> (d: String)
    ensures
        d@ == "Sent: '"@ + seq![c] + "'"@,
{
    let mut desc = String::from_str("Sent: '");
    push_char(&mut desc, c);
    desc.append("'");
    desc
}

} // verus!
