//! Input abstraction: physical keys and gamepad buttons become gamepad-style
//! `InputEvent`s.

use vstd::prelude::*;
use crate::text::char_bytes;
use crate::text::ctrl_bytes;
use crate::text::char_to_bytes;
use crate::text::ctrl_char_bytes;
use crate::text::contains_seq;
use crate::text::str_contains;
use crate::text::lowercase;
use crate::text::to_lowercase;

verus! {

#[derive(Debug, Clone, Copy, PartialEq, Eq, Structural)]
pub enum InputMode {
    /// Direct keyboard passthrough plus virtual navigation and touch.
    Hybrid,
    /// Physical keys emulate the gamepad buttons.
    Gamepad,
}

pub open spec fn mode_name(m: InputMode) -> Seq<char> {
    match m {
        InputMode::Hybrid => "DIRECT / HYBRID"@,
        InputMode::Gamepad => "GAMEPAD ONLY"@,
    }
}

impl InputMode {
    pub fn name(&self) -> (n: &'static str)
        ensures
            n@ == mode_name(*self),
    {
        match self {
            InputMode::Hybrid => "DIRECT / HYBRID",
            InputMode::Gamepad => "GAMEPAD ONLY",
        }
    }
}

#[derive(Debug, Clone, PartialEq, Eq)]
pub enum InputEvent {
    Up,
    Down,
    Left,
    Right,
    /// Gamepad A: select the key under the cursor.
    Select,
    /// Gamepad B: backspace.
    Back,
    /// Gamepad X: Shift.
    ShiftKey,
    /// Gamepad Y: Ctrl.
    CtrlKey,
    /// Symbols layer.
    L1,
    /// Numbers layer.
    R1,
    /// Enter.
    Start,
    /// Escape.
    Select2,
    Quit,
    ToggleMode,
    /// Raw bytes for the shell.
    Passthrough(Vec<u8>),
}

/// An input event as a mathematical value.
#[verifier::ext_equal]
pub enum EventView {
    Up,
    Down,
    Left,
    Right,
    Select,
    Back,
    ShiftKey,
    CtrlKey,
    L1,
    R1,
    Start,
    Select2,
    Quit,
    ToggleMode,
    Passthrough(Seq<u8>),
}

impl View for InputEvent {
    type V = EventView;

    open spec fn view(&self) -> EventView {
        match self {
            InputEvent::Up => EventView::Up,
            InputEvent::Down => EventView::Down,
            InputEvent::Left => EventView::Left,
            InputEvent::Right => EventView::Right,
            InputEvent::Select => EventView::Select,
            InputEvent::Back => EventView::Back,
            InputEvent::ShiftKey => EventView::ShiftKey,
            InputEvent::CtrlKey => EventView::CtrlKey,
            InputEvent::L1 => EventView::L1,
            InputEvent::R1 => EventView::R1,
            InputEvent::Start => EventView::Start,
            InputEvent::Select2 => EventView::Select2,
            InputEvent::Quit => EventView::Quit,
            InputEvent::ToggleMode => EventView::ToggleMode,
            InputEvent::Passthrough(b) => EventView::Passthrough(b@),
        }
    }
}

pub open spec fn opt_event_view(e: Option<InputEvent>) -> Option<EventView> {
    match e {
        Some(e) => Some(e@),
        None => None,
    }
}

/// A source of input events.
pub trait InputSource {
    fn poll_event(&mut self) -> Option<InputEvent>;
}

// ---------------------------------------------------------------------------
// PC keyboard
// ---------------------------------------------------------------------------

/// A key of a PC keyboard, as a terminal reports it.
#[derive(Debug, Clone, Copy, PartialEq, Eq, Structural)]
pub enum KeyCode {
    Backspace,
    Enter,
    Left,
    Right,
    Up,
    Down,
    Home,
    End,
    PageUp,
    PageDown,
    Tab,
    BackTab,
    Delete,
    Insert,
    F(u8),
    Char(char),
    Null,
    Esc,
    CapsLock,
    ScrollLock,
    NumLock,
    PrintScreen,
    Pause,
    Menu,
    KeypadBegin,
    Media,
    Modifier,
}

/// The modifier keys held with a key, as a bit set.
#[derive(Debug, Clone, Copy, PartialEq, Eq, Structural)]
pub struct KeyModifiers {
    pub bits: u8,
}

pub open spec fn modifiers_contain(m: KeyModifiers, other: KeyModifiers) -> bool {
    m.bits & other.bits == other.bits
}

/// Whether Ctrl (the second bit) is among the modifiers.
pub open spec fn has_control(m: KeyModifiers) -> bool {
    (m.bits / 2) % 2 == 1
}

proof fn lemma_control_bit(bits: u8)
    ensures
        (bits & 2u8 == 2u8) == ((bits / 2) % 2 == 1),
{
    assert((bits & 2u8 == 2u8) == ((bits / 2) % 2 == 1)) by (bit_vector);
}

impl KeyModifiers {
    pub fn from_bits(bits: u8) -> (m: Self)
        ensures
            m.bits == bits,
    {
        KeyModifiers { bits }
    }

    pub fn none() -> (m: Self)
        ensures
            m.bits == 0,
    {
        KeyModifiers { bits: 0 }
    }

    pub fn shift() -> (m: Self)
        ensures
            m.bits == 1,
    {
        KeyModifiers { bits: 1 }
    }

    pub fn control() -> (m: Self)
        ensures
            m.bits == 2,
    {
        KeyModifiers { bits: 2 }
    }

    pub fn alt() -> (m: Self)
        ensures
            m.bits == 4,
    {
        KeyModifiers { bits: 4 }
    }

    pub fn contains(&self, other: KeyModifiers) -> (b: bool)
        ensures
            b == modifiers_contain(*self, other),
    {
        self.bits & other.bits == other.bits
    }
}

/// A key press: the key and the modifiers held.
#[derive(Debug, Clone, Copy, PartialEq, Eq, Structural)]
pub struct KeyEvent {
    pub code: KeyCode,
    pub modifiers: KeyModifiers,
}

impl KeyEvent {
    pub fn new(code: KeyCode, modifiers: KeyModifiers) -> (k: Self)
        ensures
            k.code == code,
            k.modifiers == modifiers,
    {
        KeyEvent { code, modifiers }
    }
}

pub struct PcKeyboardInput {
    pub mode: InputMode,
}

pub open spec fn other_mode(m: InputMode) -> InputMode {
    match m {
        InputMode::Hybrid => InputMode::Gamepad,
        InputMode::Gamepad => InputMode::Hybrid,
    }
}

/// Keys that work in every mode: Ctrl+Q and F10 quit, F9 and Insert switch
/// the mode; all other keys are read by the mode's own table.
pub open spec fn key_event_view(mode: InputMode, key: KeyEvent) -> Option<EventView> {
    if has_control(key.modifiers) && (key.code == KeyCode::Char('q') || key.code == KeyCode::Char('Q')) {
        Some(EventView::Quit)
    } else if key.code == KeyCode::F(10) {
        Some(EventView::Quit)
    } else if key.code == KeyCode::F(9) || key.code == KeyCode::Insert {
        Some(EventView::ToggleMode)
    } else {
        match mode {
            InputMode::Hybrid => hybrid_event_view(key),
            InputMode::Gamepad => gamepad_event_view(key.code),
        }
    }
}

/// Hybrid mode: arrows navigate, function keys drive the keyboard, and
/// everything typed goes straight to the shell.
pub open spec fn hybrid_event_view(key: KeyEvent) -> Option<EventView> {
    match key.code {
        KeyCode::Up => Some(EventView::Up),
        KeyCode::Down => Some(EventView::Down),
        KeyCode::Left => Some(EventView::Left),
        KeyCode::Right => Some(EventView::Right),
        KeyCode::F(n) => {
            if n == 1 {
                Some(EventView::ShiftKey)
            } else if n == 2 {
                Some(EventView::CtrlKey)
            } else if n == 3 {
                Some(EventView::L1)
            } else if n == 4 {
                Some(EventView::R1)
            } else if n == 5 {
                Some(EventView::Start)
            } else if n == 12 {
                Some(EventView::Select2)
            } else {
                None
            }
        },
        KeyCode::PageUp => Some(EventView::L1),
        KeyCode::PageDown => Some(EventView::R1),
        KeyCode::Char(c) => Some(
            EventView::Passthrough(if has_control(key.modifiers) { ctrl_bytes(c) } else { char_bytes(c) }),
        ),
        KeyCode::Enter => Some(EventView::Passthrough(seq![0x0Du8])),
        KeyCode::Backspace => Some(EventView::Passthrough(seq![0x7Fu8])),
        KeyCode::Tab => Some(EventView::Passthrough(seq![0x09u8])),
        KeyCode::Esc => Some(EventView::Passthrough(seq![0x1Bu8])),
        KeyCode::Home => Some(EventView::Passthrough(seq![0x1Bu8, 0x5Bu8, 0x48u8])),
        KeyCode::End => Some(EventView::Passthrough(seq![0x1Bu8, 0x5Bu8, 0x46u8])),
        KeyCode::Delete => Some(EventView::Passthrough(seq![0x1Bu8, 0x5Bu8, 0x33u8, 0x7Eu8])),
        _ => None,
    }
}

/// Gamepad mode: letters stand for the buttons of the handheld.
pub open spec fn gamepad_event_view(code: KeyCode) -> Option<EventView> {
    match code {
        KeyCode::Up => Some(EventView::Up),
        KeyCode::Down => Some(EventView::Down),
        KeyCode::Left => Some(EventView::Left),
        KeyCode::Right => Some(EventView::Right),
        KeyCode::Enter => Some(EventView::Select),
        KeyCode::Backspace => Some(EventView::Back),
        KeyCode::PageUp => Some(EventView::L1),
        KeyCode::PageDown => Some(EventView::R1),
        KeyCode::Tab => Some(EventView::Start),
        KeyCode::Esc => Some(EventView::Select2),
        KeyCode::F(n) => {
            if n == 1 {
                Some(EventView::ShiftKey)
            } else if n == 2 {
                Some(EventView::CtrlKey)
            } else if n == 3 {
                Some(EventView::L1)
            } else if n == 4 {
                Some(EventView::R1)
            } else if n == 5 {
                Some(EventView::Start)
            } else if n == 12 {
                Some(EventView::Select2)
            } else {
                None
            }
        },
        KeyCode::Char(c) => {
            if c == ' ' || c == 'j' || c == 'J' || c == 'z' || c == 'Z' {
                Some(EventView::Select)
            } else if c == 'k' || c == 'K' {
                Some(EventView::Back)
            } else if c == 'u' || c == 'U' || c == 'x' || c == 'X' {
                Some(EventView::ShiftKey)
            } else if c == 'i' || c == 'I' || c == 'y' || c == 'Y' {
                Some(EventView::CtrlKey)
            } else if c == '[' {
                Some(EventView::L1)
            } else if c == ']' {
                Some(EventView::R1)
            } else {
                None
            }
        },
        _ => None,
    }
}

impl Default for PcKeyboardInput {
    fn default() -> (s: Self)
        ensures
            s.mode == InputMode::Hybrid,
    {
        Self::new()
    }
}

impl PcKeyboardInput {
    pub fn new() -> (s: Self)
        ensures
            s.mode == InputMode::Hybrid,
    {
        PcKeyboardInput { mode: InputMode::Hybrid }
    }

    pub fn toggle_mode(&mut self) -> (m: InputMode)
        ensures
            final(self).mode == other_mode(old(self).mode),
            m == final(self).mode,
    {
        self.mode = match self.mode {
            InputMode::Hybrid => InputMode::Gamepad,
            InputMode::Gamepad => InputMode::Hybrid,
        };
        self.mode
    }

    pub fn map_key(&self, key: KeyEvent) -> (e: Option<InputEvent>)
        ensures
            opt_event_view(e) == key_event_view(self.mode, key),
    {
        proof {
            lemma_control_bit(key.modifiers.bits);
        }
        if key.modifiers.contains(KeyModifiers::control()) {
            match key.code {
                KeyCode::Char('q') | KeyCode::Char('Q') => return Some(InputEvent::Quit),
                _ => {},
            }
        }
        if key.code == KeyCode::F(10) {
            return Some(InputEvent::Quit);
        }
        if key.code == KeyCode::F(9) || key.code == KeyCode::Insert {
            return Some(InputEvent::ToggleMode);
        }
        match self.mode {
            InputMode::Hybrid => self.map_hybrid_key(key),
            InputMode::Gamepad => self.map_gamepad_key(key),
        }
    }

    fn map_hybrid_key(&self, key: KeyEvent) -> (e: Option<InputEvent>)
        ensures
            opt_event_view(e) == hybrid_event_view(key),
    {
        proof {
            lemma_control_bit(key.modifiers.bits);
        }
        match key.code {
            KeyCode::Up => Some(InputEvent::Up),
            KeyCode::Down => Some(InputEvent::Down),
            KeyCode::Left => Some(InputEvent::Left),
            KeyCode::Right => Some(InputEvent::Right),
            KeyCode::F(1) => Some(InputEvent::ShiftKey),
            KeyCode::F(2) => Some(InputEvent::CtrlKey),
            KeyCode::F(3) | KeyCode::PageUp => Some(InputEvent::L1),
            KeyCode::F(4) | KeyCode::PageDown => Some(InputEvent::R1),
            KeyCode::F(5) => Some(InputEvent::Start),
            KeyCode::F(12) => Some(InputEvent::Select2),
            KeyCode::Char(c) if key.modifiers.contains(KeyModifiers::control()) => {
                Some(InputEvent::Passthrough(ctrl_char_bytes(c)))
            },
            KeyCode::Char(c) => Some(InputEvent::Passthrough(char_to_bytes(c))),
            KeyCode::Enter => Some(InputEvent::Passthrough(vec![0x0Du8])),
            KeyCode::Backspace => Some(InputEvent::Passthrough(vec![0x7Fu8])),
            KeyCode::Tab => Some(InputEvent::Passthrough(vec![0x09u8])),
            KeyCode::Esc => Some(InputEvent::Passthrough(vec![0x1Bu8])),
            KeyCode::Home => Some(InputEvent::Passthrough(vec![0x1Bu8, 0x5Bu8, 0x48u8])),
            KeyCode::End => Some(InputEvent::Passthrough(vec![0x1Bu8, 0x5Bu8, 0x46u8])),
            KeyCode::Delete => Some(InputEvent::Passthrough(vec![0x1Bu8, 0x5Bu8, 0x33u8, 0x7Eu8])),
            _ => None,
        }
    }

    fn map_gamepad_key(&self, key: KeyEvent) -> (e: Option<InputEvent>)
        ensures
            opt_event_view(e) == gamepad_event_view(key.code),
    {
        match key.code {
            KeyCode::Up => Some(InputEvent::Up),
            KeyCode::Down => Some(InputEvent::Down),
            KeyCode::Left => Some(InputEvent::Left),
            KeyCode::Right => Some(InputEvent::Right),
            KeyCode::Enter => Some(InputEvent::Select),
            KeyCode::Char(' ') => Some(InputEvent::Select),
            KeyCode::Char('j') | KeyCode::Char('J') => Some(InputEvent::Select),
            KeyCode::Char('z') | KeyCode::Char('Z') => Some(InputEvent::Select),
            KeyCode::Backspace => Some(InputEvent::Back),
            KeyCode::Char('k') | KeyCode::Char('K') => Some(InputEvent::Back),
            KeyCode::F(1) => Some(InputEvent::ShiftKey),
            KeyCode::Char('u') | KeyCode::Char('U') => Some(InputEvent::ShiftKey),
            KeyCode::Char('x') | KeyCode::Char('X') => Some(InputEvent::ShiftKey),
            KeyCode::F(2) => Some(InputEvent::CtrlKey),
            KeyCode::Char('i') | KeyCode::Char('I') => Some(InputEvent::CtrlKey),
            KeyCode::Char('y') | KeyCode::Char('Y') => Some(InputEvent::CtrlKey),
            KeyCode::F(3) | KeyCode::PageUp | KeyCode::Char('[') => Some(InputEvent::L1),
            KeyCode::F(4) | KeyCode::PageDown | KeyCode::Char(']') => Some(InputEvent::R1),
            KeyCode::Tab | KeyCode::F(5) => Some(InputEvent::Start),
            KeyCode::Esc | KeyCode::F(12) => Some(InputEvent::Select2),
            _ => None,
        }
    }
}

// ---------------------------------------------------------------------------
// Gamepad device
// ---------------------------------------------------------------------------

/// A Linux input key or button, by the name of its event code. Codes
/// without a name here are kept as `Other`.
#[allow(non_camel_case_types)]
#[derive(Debug, Clone, Copy, PartialEq, Eq, Structural)]
pub enum Key {
    KEY_ESC,
    KEY_BACKSPACE,
    KEY_TAB,
    KEY_ENTER,
    KEY_F,
    KEY_F1,
    KEY_F2,
    KEY_F3,
    KEY_F4,
    KEY_UP,
    KEY_PAGEUP,
    KEY_LEFT,
    KEY_RIGHT,
    KEY_DOWN,
    KEY_PAGEDOWN,
    KEY_HOMEPAGE,
    BTN_0,
    BTN_1,
    BTN_2,
    BTN_3,
    BTN_SOUTH,
    BTN_EAST,
    BTN_NORTH,
    BTN_WEST,
    BTN_TL,
    BTN_TR,
    BTN_TL2,
    BTN_TR2,
    BTN_SELECT,
    BTN_START,
    BTN_MODE,
    BTN_DPAD_UP,
    BTN_DPAD_DOWN,
    BTN_DPAD_LEFT,
    BTN_DPAD_RIGHT,
    Other(u16),
}

/// The Linux event code of a key.
pub open spec fn key_code(k: Key) -> u16 {
    match k {
        Key::KEY_ESC => 1,
        Key::KEY_BACKSPACE => 14,
        Key::KEY_TAB => 15,
        Key::KEY_ENTER => 28,
        Key::KEY_F => 33,
        Key::KEY_F1 => 59,
        Key::KEY_F2 => 60,
        Key::KEY_F3 => 61,
        Key::KEY_F4 => 62,
        Key::KEY_UP => 103,
        Key::KEY_PAGEUP => 104,
        Key::KEY_LEFT => 105,
        Key::KEY_RIGHT => 106,
        Key::KEY_DOWN => 108,
        Key::KEY_PAGEDOWN => 109,
        Key::KEY_HOMEPAGE => 172,
        Key::BTN_0 => 0x100,
        Key::BTN_1 => 0x101,
        Key::BTN_2 => 0x102,
        Key::BTN_3 => 0x103,
        Key::BTN_SOUTH => 0x130,
        Key::BTN_EAST => 0x131,
        Key::BTN_NORTH => 0x133,
        Key::BTN_WEST => 0x134,
        Key::BTN_TL => 0x136,
        Key::BTN_TR => 0x137,
        Key::BTN_TL2 => 0x138,
        Key::BTN_TR2 => 0x139,
        Key::BTN_SELECT => 0x13a,
        Key::BTN_START => 0x13b,
        Key::BTN_MODE => 0x13c,
        Key::BTN_DPAD_UP => 0x220,
        Key::BTN_DPAD_DOWN => 0x221,
        Key::BTN_DPAD_LEFT => 0x222,
        Key::BTN_DPAD_RIGHT => 0x223,
        Key::Other(c) => c,
    }
}

/// The key named by an event code.
pub open spec fn key_of_code(code: u16) -> Key {
    match code {
        1 => Key::KEY_ESC,
        14 => Key::KEY_BACKSPACE,
        15 => Key::KEY_TAB,
        28 => Key::KEY_ENTER,
        33 => Key::KEY_F,
        59 => Key::KEY_F1,
        60 => Key::KEY_F2,
        61 => Key::KEY_F3,
        62 => Key::KEY_F4,
        103 => Key::KEY_UP,
        104 => Key::KEY_PAGEUP,
        105 => Key::KEY_LEFT,
        106 => Key::KEY_RIGHT,
        108 => Key::KEY_DOWN,
        109 => Key::KEY_PAGEDOWN,
        172 => Key::KEY_HOMEPAGE,
        0x100 => Key::BTN_0,
        0x101 => Key::BTN_1,
        0x102 => Key::BTN_2,
        0x103 => Key::BTN_3,
        0x130 => Key::BTN_SOUTH,
        0x131 => Key::BTN_EAST,
        0x133 => Key::BTN_NORTH,
        0x134 => Key::BTN_WEST,
        0x136 => Key::BTN_TL,
        0x137 => Key::BTN_TR,
        0x138 => Key::BTN_TL2,
        0x139 => Key::BTN_TR2,
        0x13a => Key::BTN_SELECT,
        0x13b => Key::BTN_START,
        0x13c => Key::BTN_MODE,
        0x220 => Key::BTN_DPAD_UP,
        0x221 => Key::BTN_DPAD_DOWN,
        0x222 => Key::BTN_DPAD_LEFT,
        0x223 => Key::BTN_DPAD_RIGHT,
        _ => Key::Other(code),
    }
}

impl Key {
    pub fn new(code: u16) -> (k: Key)
        ensures
            k == key_of_code(code),
    {
        match code {
            1 => Key::KEY_ESC,
            14 => Key::KEY_BACKSPACE,
            15 => Key::KEY_TAB,
            28 => Key::KEY_ENTER,
            33 => Key::KEY_F,
            59 => Key::KEY_F1,
            60 => Key::KEY_F2,
            61 => Key::KEY_F3,
            62 => Key::KEY_F4,
            103 => Key::KEY_UP,
            104 => Key::KEY_PAGEUP,
            105 => Key::KEY_LEFT,
            106 => Key::KEY_RIGHT,
            108 => Key::KEY_DOWN,
            109 => Key::KEY_PAGEDOWN,
            172 => Key::KEY_HOMEPAGE,
            0x100 => Key::BTN_0,
            0x101 => Key::BTN_1,
            0x102 => Key::BTN_2,
            0x103 => Key::BTN_3,
            0x130 => Key::BTN_SOUTH,
            0x131 => Key::BTN_EAST,
            0x133 => Key::BTN_NORTH,
            0x134 => Key::BTN_WEST,
            0x136 => Key::BTN_TL,
            0x137 => Key::BTN_TR,
            0x138 => Key::BTN_TL2,
            0x139 => Key::BTN_TR2,
            0x13a => Key::BTN_SELECT,
            0x13b => Key::BTN_START,
            0x13c => Key::BTN_MODE,
            0x220 => Key::BTN_DPAD_UP,
            0x221 => Key::BTN_DPAD_DOWN,
            0x222 => Key::BTN_DPAD_LEFT,
            0x223 => Key::BTN_DPAD_RIGHT,
            _ => Key::Other(code),
        }
    }

    pub fn code(&self) -> (c: u16)
        ensures
            c == key_code(*self),
    {
        match self {
            Key::KEY_ESC => 1,
            Key::KEY_BACKSPACE => 14,
            Key::KEY_TAB => 15,
            Key::KEY_ENTER => 28,
            Key::KEY_F => 33,
            Key::KEY_F1 => 59,
            Key::KEY_F2 => 60,
            Key::KEY_F3 => 61,
            Key::KEY_F4 => 62,
            Key::KEY_UP => 103,
            Key::KEY_PAGEUP => 104,
            Key::KEY_LEFT => 105,
            Key::KEY_RIGHT => 106,
            Key::KEY_DOWN => 108,
            Key::KEY_PAGEDOWN => 109,
            Key::KEY_HOMEPAGE => 172,
            Key::BTN_0 => 0x100,
            Key::BTN_1 => 0x101,
            Key::BTN_2 => 0x102,
            Key::BTN_3 => 0x103,
            Key::BTN_SOUTH => 0x130,
            Key::BTN_EAST => 0x131,
            Key::BTN_NORTH => 0x133,
            Key::BTN_WEST => 0x134,
            Key::BTN_TL => 0x136,
            Key::BTN_TR => 0x137,
            Key::BTN_TL2 => 0x138,
            Key::BTN_TR2 => 0x139,
            Key::BTN_SELECT => 0x13a,
            Key::BTN_START => 0x13b,
            Key::BTN_MODE => 0x13c,
            Key::BTN_DPAD_UP => 0x220,
            Key::BTN_DPAD_DOWN => 0x221,
            Key::BTN_DPAD_LEFT => 0x222,
            Key::BTN_DPAD_RIGHT => 0x223,
            Key::Other(c) => *c,
        }
    }
}

/// The gamepad button a key or button stands for; keys are told apart by
/// their event codes.
pub open spec fn evdev_event_view(key: Key) -> Option<EventView> {
    match key_of_code(key_code(key)) {
        Key::KEY_UP | Key::BTN_DPAD_UP => Some(EventView::Up),
        Key::KEY_DOWN | Key::BTN_DPAD_DOWN => Some(EventView::Down),
        Key::KEY_LEFT | Key::BTN_DPAD_LEFT => Some(EventView::Left),
        Key::KEY_RIGHT | Key::BTN_DPAD_RIGHT => Some(EventView::Right),
        Key::BTN_SOUTH | Key::BTN_0 | Key::KEY_ENTER => Some(EventView::Select),
        Key::BTN_EAST | Key::BTN_1 | Key::KEY_BACKSPACE => Some(EventView::Back),
        Key::BTN_NORTH | Key::BTN_2 | Key::KEY_F1 => Some(EventView::ShiftKey),
        Key::BTN_WEST | Key::BTN_3 | Key::KEY_F2 => Some(EventView::CtrlKey),
        Key::BTN_TL | Key::BTN_TL2 | Key::KEY_F3 | Key::KEY_PAGEUP => Some(EventView::L1),
        Key::BTN_TR | Key::BTN_TR2 | Key::KEY_F4 | Key::KEY_PAGEDOWN => Some(EventView::R1),
        Key::BTN_START | Key::KEY_TAB => Some(EventView::Start),
        Key::BTN_SELECT | Key::KEY_ESC => Some(EventView::Select2),
        Key::BTN_MODE | Key::KEY_HOMEPAGE | Key::KEY_F => Some(EventView::ToggleMode),
        _ => None,
    }
}

/// evdev's `Device`, an open input device; the library only carries it.
#[verifier::external_type_specification]
#[verifier::external_body]
pub struct ExDevice(evdev::Device);

/// The handheld's gamepad, when one was found.
pub struct EvdevGamepadInput {
    pub device: Option<evdev::Device>,
}

/// One event read from an input device: the key, for a key event, and the
/// event's value (1 for a press).
#[derive(Debug, Clone, Copy, PartialEq, Eq, Structural)]
pub struct RawInputEvent {
    pub key: Option<Key>,
    pub value: i32,
}

/// The gamepad event of a key press; releases, repeats and other events
/// give none.
pub open spec fn press_event_view(e: RawInputEvent) -> Option<EventView> {
    match e.key {
        Some(k) => if e.value == 1 { evdev_event_view(k) } else { None },
        None => None,
    }
}

/// The names under which handheld gamepads announce themselves.
pub open spec fn names_gamepad(lower: Seq<char>) -> bool {
    ||| contains_seq(lower, "retrogame"@)
    ||| contains_seq(lower, "joypad"@)
    ||| contains_seq(lower, "gamepad"@)
    ||| contains_seq(lower, "rk_"@)
    ||| contains_seq(lower, "odroid"@)
}

impl EvdevGamepadInput {
    pub fn map_evdev_key(key: Key) -> (e: Option<InputEvent>)
        ensures
            opt_event_view(e) == evdev_event_view(key),
    {
        match Key::new(key.code()) {
            Key::KEY_UP | Key::BTN_DPAD_UP => Some(InputEvent::Up),
            Key::KEY_DOWN | Key::BTN_DPAD_DOWN => Some(InputEvent::Down),
            Key::KEY_LEFT | Key::BTN_DPAD_LEFT => Some(InputEvent::Left),
            Key::KEY_RIGHT | Key::BTN_DPAD_RIGHT => Some(InputEvent::Right),
            Key::BTN_SOUTH | Key::BTN_0 | Key::KEY_ENTER => Some(InputEvent::Select),
            Key::BTN_EAST | Key::BTN_1 | Key::KEY_BACKSPACE => Some(InputEvent::Back),
            Key::BTN_NORTH | Key::BTN_2 | Key::KEY_F1 => Some(InputEvent::ShiftKey),
            Key::BTN_WEST | Key::BTN_3 | Key::KEY_F2 => Some(InputEvent::CtrlKey),
            Key::BTN_TL | Key::BTN_TL2 | Key::KEY_F3 | Key::KEY_PAGEUP => Some(InputEvent::L1),
            Key::BTN_TR | Key::BTN_TR2 | Key::KEY_F4 | Key::KEY_PAGEDOWN => Some(InputEvent::R1),
            Key::BTN_START | Key::KEY_TAB => Some(InputEvent::Start),
            Key::BTN_SELECT | Key::KEY_ESC => Some(InputEvent::Select2),
            Key::BTN_MODE | Key::KEY_HOMEPAGE | Key::KEY_F => Some(InputEvent::ToggleMode),
            _ => None,
        }
    }

    /// The event of the first press in a batch that maps to a button.
    pub fn first_press_event(events: &Vec<RawInputEvent>) -> (e: Option<InputEvent>)
        ensures
            match e {
                Some(ev) => exists|i: int|
                    0 <= i < events@.len() && press_event_view(#[trigger] events@[i]) == Some(ev@)
                        && forall|j: int| 0 <= j < i ==> press_event_view(#[trigger] events@[j]) is None,
                None => forall|i: int| 0 <= i < events@.len() ==> press_event_view(#[trigger] events@[i]) is None,
            },
    {
        let mut i: usize = 0;
        while i < events.len()
            invariant
                0 <= i <= events@.len(),
                forall|j: int| 0 <= j < i ==> press_event_view(#[trigger] events@[j]) is None,
            decreases events@.len() - i,
        {
            let ev = events[i];
            if let Some(key) = ev.key {
                if ev.value == 1 {
                    if let Some(mapped) = Self::map_evdev_key(key) {
                        assert(press_event_view(events@[i as int]) == Some(mapped@));
                        return Some(mapped);
                    }
                }
            }
            i += 1;
        }
        None
    }

    /// Whether a device name is that of a gamepad, compared without regard
    /// to case.
    pub fn is_gamepad_name(name: &str) -> (b: bool)
        ensures
            b == names_gamepad(lowercase(name@)),
    {
        let lower = to_lowercase(name);
        Self::is_gamepad_lowercase_name(lower.as_str())
    }

    /// Whether an already lower-cased device name is that of a gamepad.
    pub fn is_gamepad_lowercase_name(lower: &str) -> (b: bool)
        ensures
            b == names_gamepad(lower@),
    {
        str_contains(lower, "retrogame") || str_contains(lower, "joypad") || str_contains(lower, "gamepad")
            || str_contains(lower, "rk_") || str_contains(lower, "odroid")
    }
}

} // verus!
