//! Properties that span several operations of the keyboard, the input
//! mappers and the session.

use vstd::prelude::*;
use crate::input::EventView;
use crate::input::InputMode;
use crate::input::KeyCode;
use crate::input::KeyEvent;
use crate::input::Key;
use crate::input::KeyModifiers;
use crate::input::evdev_event_view;
use crate::input::has_control;
use crate::input::key_code;
use crate::input::key_event_view;
use crate::input::key_of_code;
use crate::input::other_mode;
use crate::keyboard::Direction;
use crate::keyboard::KeyAction;
use crate::keyboard::KeyboardView;
use crate::keyboard::Layer;
use crate::keyboard::action_outcome;
use crate::keyboard::base_key;
use crate::keyboard::base_lower;
use crate::keyboard::base_upper;
use crate::keyboard::can_move;
use crate::keyboard::current_layout;
use crate::keyboard::hit_key;
use crate::keyboard::initial_view;
use crate::keyboard::layout_view;
use crate::keyboard::lemma_layout_shape;
use crate::keyboard::moved;
use crate::keyboard::next_layer;
use crate::keyboard::on_layer;
use crate::keyboard::select_outcome;
use crate::keyboard::switched_layer;
use crate::keyboard::toggled_ctrl;
use crate::keyboard::toggled_shift;
use crate::keyboard::toggled_visibility;
use crate::session::SessionView;
use crate::render::Color;
use crate::render::SegmentView;
use crate::render::grid_view;
use crate::render::key_segment;
use crate::render::keys_segments;
use crate::render::plain;
use crate::render::styled;
use crate::session::event_allowed;
use crate::session::event_outcome;
use crate::text::ascii_upper;
use crate::text::char_bytes;
use crate::text::ctrl_code;
use crate::text::is_ascii_letter;
use crate::text::is_ascii_lowercase;

verus! {

/// The cursor is on a key of the grid it shows.
pub open spec fn cursor_on_grid(s: KeyboardView) -> bool {
    let lay = current_layout(s);
    s.cursor_row < lay.len() && s.cursor_col < lay[s.cursor_row as int].len()
}

/// A fresh keyboard has its cursor on a key.
pub proof fn law_initial_cursor_on_grid()
    ensures
        cursor_on_grid(initial_view()),
{
    lemma_layout_shape(Layer::Base, false, false);
}

/// Moving the cursor always leaves it on a key.
pub proof fn law_move_lands_on_grid(s: KeyboardView, dir: Direction)
    requires
        can_move(s, dir),
    ensures
        cursor_on_grid(moved(s, dir)),
{
    lemma_layout_shape(s.layer, s.shift, s.ctrl);
}

/// Every key action leaves a cursor that was on a key on a key: layers
/// change the grid but not its shape, and switching layers homes the cursor.
pub proof fn law_actions_keep_cursor_on_grid(s: KeyboardView, a: KeyAction)
    requires
        cursor_on_grid(s),
    ensures
        cursor_on_grid(action_outcome(s, a).0),
        cursor_on_grid(select_outcome(s).0),
{
    lemma_layout_shape(s.layer, s.shift, s.ctrl);
    lemma_layout_shape(action_outcome(s, a).0.layer, action_outcome(s, a).0.shift, action_outcome(s, a).0.ctrl);
    lemma_layout_shape(select_outcome(s).0.layer, select_outcome(s).0.shift, select_outcome(s).0.ctrl);
}

/// Every input event can be applied to a keyboard whose cursor is on a key,
/// and leaves the cursor on a key.
pub proof fn law_events_keep_cursor_on_grid(s: SessionView, e: EventView)
    requires
        cursor_on_grid(s.kb),
    ensures
        event_allowed(s.kb, e),
        cursor_on_grid(event_outcome(s, e).0.kb),
{
    lemma_layout_shape(s.kb.layer, s.kb.shift, s.kb.ctrl);
    let k = event_outcome(s, e).0.kb;
    lemma_layout_shape(k.layer, k.shift, k.ctrl);
    law_actions_keep_cursor_on_grid(s.kb, KeyAction::Backspace);
    law_actions_keep_cursor_on_grid(s.kb, KeyAction::Enter);
    law_actions_keep_cursor_on_grid(s.kb, KeyAction::Escape);
}

/// Left then Right, or Right then Left, puts the cursor back.
pub proof fn law_left_right_inverse(s: KeyboardView)
    requires
        cursor_on_grid(s),
    ensures
        can_move(s, Direction::Left),
        can_move(moved(s, Direction::Left), Direction::Right),
        moved(moved(s, Direction::Left), Direction::Right) == s,
        can_move(s, Direction::Right),
        can_move(moved(s, Direction::Right), Direction::Left),
        moved(moved(s, Direction::Right), Direction::Left) == s,
{
    lemma_layout_shape(s.layer, s.shift, s.ctrl);
}

/// Up then Down, or Down then Up, puts the cursor back.
pub proof fn law_up_down_inverse(s: KeyboardView)
    requires
        cursor_on_grid(s),
    ensures
        can_move(moved(s, Direction::Up), Direction::Down),
        moved(moved(s, Direction::Up), Direction::Down) == s,
        can_move(moved(s, Direction::Down), Direction::Up),
        moved(moved(s, Direction::Down), Direction::Up) == s,
{
    lemma_layout_shape(s.layer, s.shift, s.ctrl);
    lemma_layout_shape(moved(s, Direction::Up).layer, s.shift, s.ctrl);
    let r = s.cursor_row;
    assert(r == 0 || r == 1 || r == 2 || r == 3);
    assert((3int + 1) % 4 == 0 && (0int + 1) % 4 == 1 && (1int + 1) % 4 == 2 && (2int + 1) % 4 == 3) by (nonlinear_arith);
}

/// Moving down once per row brings the cursor back to where it was.
pub proof fn law_down_cycles_through_rows(s: KeyboardView)
    requires
        cursor_on_grid(s),
    ensures
        moved(moved(moved(moved(s, Direction::Down), Direction::Down), Direction::Down), Direction::Down) == s,
{
    lemma_layout_shape(s.layer, s.shift, s.ctrl);
    let r = s.cursor_row;
    assert(r == 0 || r == 1 || r == 2 || r == 3);
    assert((3int + 1) % 4 == 0 && (0int + 1) % 4 == 1 && (1int + 1) % 4 == 2 && (2int + 1) % 4 == 3) by (nonlinear_arith);
}

/// Three presses of R1 come back to the layer they started from, with the
/// cursor home.
pub proof fn law_r1_cycles_three_layers(s: KeyboardView)
    ensures
        ({
            let s1 = on_layer(s, next_layer(s.layer));
            let s2 = on_layer(s1, next_layer(s1.layer));
            let s3 = on_layer(s2, next_layer(s2.layer));
            s3 == on_layer(s, s.layer)
        }),
        next_layer(s.layer) != s.layer,
{
}

/// Choosing a layer shows it; choosing it again returns to the base layer.
pub proof fn law_layer_key_toggles_back_to_base(s: KeyboardView, l: Layer)
    requires
        s.layer != l,
    ensures
        switched_layer(s, l).layer == l,
        switched_layer(switched_layer(s, l), l).layer == Layer::Base,
{
}

/// Toggling Shift, Ctrl or the keyboard's visibility twice restores the
/// state; only the status line tells of it.
pub proof fn law_toggles_are_involutions(s: KeyboardView)
    ensures
        toggled_shift(toggled_shift(s)) == (KeyboardView { desc: toggled_shift(toggled_shift(s)).desc, ..s }),
        toggled_ctrl(toggled_ctrl(s)) == (KeyboardView { desc: toggled_ctrl(toggled_ctrl(s)).desc, ..s }),
        toggled_visibility(toggled_visibility(s)) == (KeyboardView {
            desc: toggled_visibility(toggled_visibility(s)).desc,
            ..s
        }),
{
}

/// One-shot Shift and sticky Ctrl are both released by anything that types
/// text.
pub proof fn law_text_keys_release_modifiers(s: KeyboardView, a: KeyAction)
    requires
        a is Char || a is Text || a is Space || a is Enter,
    ensures
        !action_outcome(s, a).0.shift,
        !action_outcome(s, a).0.ctrl,
{
}

/// Backspace, Tab and Escape keep the modifiers for the next character.
pub proof fn law_editing_keys_keep_modifiers(s: KeyboardView, a: KeyAction)
    requires
        a is Backspace || a is Tab || a is Escape,
    ensures
        action_outcome(s, a).0.shift == s.shift,
        action_outcome(s, a).0.ctrl == s.ctrl,
{
}

/// Ctrl with a letter sends that letter's control code, 1 for A to 26 for
/// Z, whatever the letter's case.
pub proof fn law_ctrl_letter_sends_control_code(s: KeyboardView, c: char)
    requires
        s.ctrl,
        is_ascii_letter(c),
    ensures
        action_outcome(s, KeyAction::Char(c)).1 == Some(seq![ctrl_code(c)]),
        1 <= ctrl_code(c) <= 26,
        ctrl_code(c) == ctrl_code(ascii_upper(c)),
{
}

/// Without Ctrl, an ASCII character is sent as its one byte.
pub proof fn law_plain_ascii_char_is_its_byte(s: KeyboardView, c: char)
    requires
        !s.ctrl,
        (c as u32) < 128,
    ensures
        action_outcome(s, KeyAction::Char(c)).1 matches Some(v) && v.len() == 1 && v[0] as u32 == c as u32,
{
    let t = seq![c];
    assert(t.drop_first() =~= Seq::<char>::empty());
    assert(vstd::utf8::encode_utf8(t.drop_first()) =~= Seq::<u8>::empty());
    assert(t[0] == c);
    let u = c as u32;
    assert(vstd::utf8::has_width_1_encoding(u));
    assert(((u & 0x7F) as u8) as u32 == u) by (bit_vector)
        requires
            u < 128,
    ;
    assert(char_bytes(c) =~= seq![vstd::utf8::leading_byte_width_1(u)]);
}

/// A hit is always a key of the grid, so tapping it presses that key.
pub proof fn law_hit_is_on_grid(s: KeyboardView, col: u16, row: u16, start_row: u16)
    ensures
        match hit_key(s, col, row, start_row) {
            Some((r, c)) => {
                &&& r < current_layout(s).len()
                &&& c < current_layout(s)[r as int].len()
                &&& cursor_on_grid(KeyboardView { cursor_row: r, cursor_col: c, ..s })
            },
            None => true,
        },
{
}

/// Switching the input mode twice restores it.
pub proof fn law_mode_toggle_involution(m: InputMode)
    ensures
        other_mode(other_mode(m)) == m,
        other_mode(m) != m,
{
}

/// Quitting and switching the mode work the same in every mode.
pub proof fn law_global_keys_ignore_mode(k: KeyEvent)
    requires
        k.code == KeyCode::F(10) || k.code == KeyCode::F(9) || k.code == KeyCode::Insert || (has_control(k.modifiers)
            && (k.code == KeyCode::Char('q') || k.code == KeyCode::Char('Q'))),
    ensures
        key_event_view(InputMode::Hybrid, k) == key_event_view(InputMode::Gamepad, k),
        key_event_view(InputMode::Hybrid, k) is Some,
{
}

/// In the hybrid mode a character typed without Ctrl reaches the shell as
/// its UTF-8 bytes.
pub proof fn law_hybrid_typing_reaches_shell(k: KeyEvent, c: char)
    requires
        k.code == KeyCode::Char(c),
        !has_control(k.modifiers),
    ensures
        key_event_view(InputMode::Hybrid, k) == Some(EventView::Passthrough(char_bytes(c))),
{
}

/// A key made from an event code has that code.
pub proof fn law_key_code_roundtrip(code: u16)
    ensures
        key_code(key_of_code(code)) == code,
{
}

/// Raw bytes are forwarded untouched; only Quit stops the session.
pub proof fn law_passthrough_and_quit(s: SessionView, e: EventView)
    ensures
        e matches EventView::Passthrough(b) ==> event_outcome(s, e) == (s, Some(b)),
        e is Quit ==> !event_outcome(s, e).0.running,
        !(e is Quit) ==> event_outcome(s, e).0.running == s.running,
{
}

/// On the base layer Shift turns every letter key into its capital.
pub proof fn law_shift_gives_capitals(r: int, c: int)
    requires
        0 <= r < 4,
        0 <= c < 12,
        is_ascii_lowercase(base_lower(r)[c]),
    ensures
        base_upper(r)[c] == ascii_upper(base_lower(r)[c]),
        base_key(r, c, true, false).action == KeyAction::Char(ascii_upper(base_lower(r)[c])),
{
    assert(r == 0 || r == 1 || r == 2 || r == 3);
    assert(c == 0 || c == 1 || c == 2 || c == 3 || c == 4 || c == 5 || c == 6 || c == 7 || c == 8 || c == 9
        || c == 10 || c == 11);
}

/// Without Ctrl, a key that types a character is labelled with exactly that
/// character.
pub proof fn law_char_keys_show_what_they_type(layer: Layer, shift: bool, r: int, c: int)
    requires
        0 <= r < 4,
        0 <= c < 12,
        layout_view(layer, shift, false)[r][c].action is Char,
    ensures
        ({
            let k = layout_view(layer, shift, false)[r][c];
            k.label == seq![k.action->Char_0]
        }),
{
    lemma_layout_shape(layer, shift, false);
    if layer == Layer::Numbers {
        assert(r == 0 || r == 1 || r == 2 || r == 3);
    }
}

/// Each arrow key sends its own cursor sequence, ESC [ A (up), B (down),
/// C (right) or D (left), no two alike; the paging keys send ESC [ 5 ~,
/// ESC [ 6 ~, ESC [ H and ESC [ F. None of them changes the keyboard.
pub proof fn law_navigation_keys_send_their_sequences(s: KeyboardView)
    ensures
        action_outcome(s, KeyAction::Arrow(Direction::Up)) == (s, Some(seq![0x1Bu8, 0x5Bu8, 0x41u8])),
        action_outcome(s, KeyAction::Arrow(Direction::Down)) == (s, Some(seq![0x1Bu8, 0x5Bu8, 0x42u8])),
        action_outcome(s, KeyAction::Arrow(Direction::Right)) == (s, Some(seq![0x1Bu8, 0x5Bu8, 0x43u8])),
        action_outcome(s, KeyAction::Arrow(Direction::Left)) == (s, Some(seq![0x1Bu8, 0x5Bu8, 0x44u8])),
        forall|d1: Direction, d2: Direction|
            d1 != d2 ==> #[trigger] action_outcome(s, KeyAction::Arrow(d1)).1 != #[trigger] action_outcome(
                s,
                KeyAction::Arrow(d2),
            ).1,
        action_outcome(s, KeyAction::PageUp) == (s, Some(seq![0x1Bu8, 0x5Bu8, 0x35u8, 0x7Eu8])),
        action_outcome(s, KeyAction::PageDown) == (s, Some(seq![0x1Bu8, 0x5Bu8, 0x36u8, 0x7Eu8])),
        action_outcome(s, KeyAction::Home) == (s, Some(seq![0x1Bu8, 0x5Bu8, 0x48u8])),
        action_outcome(s, KeyAction::End) == (s, Some(seq![0x1Bu8, 0x5Bu8, 0x46u8])),
{
    assert forall|d1: Direction, d2: Direction|
        d1 != d2 implies #[trigger] action_outcome(s, KeyAction::Arrow(d1)).1 != #[trigger] action_outcome(
            s,
            KeyAction::Arrow(d2),
        ).1 by {
        let b1 = action_outcome(s, KeyAction::Arrow(d1)).1.unwrap();
        let b2 = action_outcome(s, KeyAction::Arrow(d2)).1.unwrap();
        assert(b1[2] != b2[2]);
    }
}

/// Space, Enter, Tab, Escape and Backspace send their control bytes and
/// leave cursor and layer alone; a character without Ctrl is sent as its
/// UTF-8 encoding; the modifier and layer keys send nothing and change
/// only what they name.
pub proof fn law_keys_send_their_bytes(s: KeyboardView, c: char, l: Layer)
    ensures
        action_outcome(s, KeyAction::Space).1 == Some(seq![0x20u8]),
        action_outcome(s, KeyAction::Enter).1 == Some(seq![0x0Du8]),
        action_outcome(s, KeyAction::Tab).1 == Some(seq![0x09u8]),
        action_outcome(s, KeyAction::Escape).1 == Some(seq![0x1Bu8]),
        action_outcome(s, KeyAction::Backspace).1 == Some(seq![0x7Fu8]),
        !s.ctrl ==> action_outcome(s, KeyAction::Char(c)).1 == Some(vstd::utf8::encode_utf8(seq![c])),
        forall|a: KeyAction|
            (a is Char || a is Text || a is Space || a is Enter || a is Tab || a is Escape || a is Backspace)
                ==> {
                let t = #[trigger] action_outcome(s, a).0;
                &&& t.layer == s.layer
                &&& t.cursor_row == s.cursor_row
                &&& t.cursor_col == s.cursor_col
                &&& t.visible == s.visible
            },
        action_outcome(s, KeyAction::ToggleShift).1 is None,
        action_outcome(s, KeyAction::ToggleShift).0.shift == !s.shift,
        action_outcome(s, KeyAction::ToggleShift).0.ctrl == s.ctrl,
        action_outcome(s, KeyAction::ToggleShift).0.layer == s.layer,
        action_outcome(s, KeyAction::ToggleCtrl).1 is None,
        action_outcome(s, KeyAction::ToggleCtrl).0.ctrl == !s.ctrl,
        action_outcome(s, KeyAction::ToggleCtrl).0.shift == s.shift,
        action_outcome(s, KeyAction::ToggleCtrl).0.layer == s.layer,
        action_outcome(s, KeyAction::SetLayer(l)).1 is None,
        action_outcome(s, KeyAction::SetLayer(l)).0.layer == (if s.layer == l { Layer::Base } else { l }),
        action_outcome(s, KeyAction::SetLayer(l)).0.cursor_row == 0,
        action_outcome(s, KeyAction::SetLayer(l)).0.cursor_col == 0,
{
}

/// In every mode and with any modifiers, each arrow key stands for the
/// move in its own direction.
pub proof fn law_arrow_keys_keep_their_direction(mode: InputMode, m: KeyModifiers)
    ensures
        key_event_view(mode, KeyEvent { code: KeyCode::Up, modifiers: m }) == Some(EventView::Up),
        key_event_view(mode, KeyEvent { code: KeyCode::Down, modifiers: m }) == Some(EventView::Down),
        key_event_view(mode, KeyEvent { code: KeyCode::Left, modifiers: m }) == Some(EventView::Left),
        key_event_view(mode, KeyEvent { code: KeyCode::Right, modifiers: m }) == Some(EventView::Right),
{
}

/// The hybrid mode's keys: F1 to F5 and F12 and the paging keys drive the
/// keyboard, F9, F10 and Insert are global, and the editing keys reach the
/// shell as their terminal bytes.
pub proof fn law_hybrid_keys(m: KeyModifiers)
    ensures
        ({
            let h = |code: KeyCode| key_event_view(InputMode::Hybrid, KeyEvent { code, modifiers: m });
            &&& h(KeyCode::F(1)) == Some(EventView::ShiftKey)
            &&& h(KeyCode::F(2)) == Some(EventView::CtrlKey)
            &&& h(KeyCode::F(3)) == Some(EventView::L1)
            &&& h(KeyCode::PageUp) == Some(EventView::L1)
            &&& h(KeyCode::F(4)) == Some(EventView::R1)
            &&& h(KeyCode::PageDown) == Some(EventView::R1)
            &&& h(KeyCode::F(5)) == Some(EventView::Start)
            &&& h(KeyCode::F(12)) == Some(EventView::Select2)
            &&& h(KeyCode::F(9)) == Some(EventView::ToggleMode)
            &&& h(KeyCode::Insert) == Some(EventView::ToggleMode)
            &&& h(KeyCode::F(10)) == Some(EventView::Quit)
            &&& h(KeyCode::Enter) == Some(EventView::Passthrough(seq![0x0Du8]))
            &&& h(KeyCode::Backspace) == Some(EventView::Passthrough(seq![0x7Fu8]))
            &&& h(KeyCode::Tab) == Some(EventView::Passthrough(seq![0x09u8]))
            &&& h(KeyCode::Esc) == Some(EventView::Passthrough(seq![0x1Bu8]))
            &&& h(KeyCode::Home) == Some(EventView::Passthrough(seq![0x1Bu8, 0x5Bu8, 0x48u8]))
            &&& h(KeyCode::End) == Some(EventView::Passthrough(seq![0x1Bu8, 0x5Bu8, 0x46u8]))
            &&& h(KeyCode::Delete) == Some(EventView::Passthrough(seq![0x1Bu8, 0x5Bu8, 0x33u8, 0x7Eu8]))
        }),
{
}

/// The gamepad mode's keys: Enter, space, J and Z select, Backspace and K go
/// back, F1, U and X are Shift, F2, I and Y are Ctrl, F3, PageUp and `[` are
/// L1, F4, PageDown and `]` are R1, Tab and F5 are Start, Esc and F12 are
/// Select; letters count in either case.
pub proof fn law_gamepad_keys(m: KeyModifiers)
    ensures
        ({
            let g = |code: KeyCode| key_event_view(InputMode::Gamepad, KeyEvent { code, modifiers: m });
            &&& g(KeyCode::Enter) == Some(EventView::Select)
            &&& g(KeyCode::Char(' ')) == Some(EventView::Select)
            &&& g(KeyCode::Char('j')) == Some(EventView::Select)
            &&& g(KeyCode::Char('J')) == Some(EventView::Select)
            &&& g(KeyCode::Char('z')) == Some(EventView::Select)
            &&& g(KeyCode::Char('Z')) == Some(EventView::Select)
            &&& g(KeyCode::Backspace) == Some(EventView::Back)
            &&& g(KeyCode::Char('k')) == Some(EventView::Back)
            &&& g(KeyCode::Char('K')) == Some(EventView::Back)
            &&& g(KeyCode::F(1)) == Some(EventView::ShiftKey)
            &&& g(KeyCode::Char('u')) == Some(EventView::ShiftKey)
            &&& g(KeyCode::Char('U')) == Some(EventView::ShiftKey)
            &&& g(KeyCode::Char('x')) == Some(EventView::ShiftKey)
            &&& g(KeyCode::Char('X')) == Some(EventView::ShiftKey)
            &&& g(KeyCode::F(2)) == Some(EventView::CtrlKey)
            &&& g(KeyCode::Char('i')) == Some(EventView::CtrlKey)
            &&& g(KeyCode::Char('I')) == Some(EventView::CtrlKey)
            &&& g(KeyCode::Char('y')) == Some(EventView::CtrlKey)
            &&& g(KeyCode::Char('Y')) == Some(EventView::CtrlKey)
            &&& g(KeyCode::F(3)) == Some(EventView::L1)
            &&& g(KeyCode::PageUp) == Some(EventView::L1)
            &&& g(KeyCode::Char('[')) == Some(EventView::L1)
            &&& g(KeyCode::F(4)) == Some(EventView::R1)
            &&& g(KeyCode::PageDown) == Some(EventView::R1)
            &&& g(KeyCode::Char(']')) == Some(EventView::R1)
            &&& g(KeyCode::Tab) == Some(EventView::Start)
            &&& g(KeyCode::F(5)) == Some(EventView::Start)
            &&& g(KeyCode::Esc) == Some(EventView::Select2)
            &&& g(KeyCode::F(12)) == Some(EventView::Select2)
        }),
{
}

/// Gamepad buttons and keys by their Linux event codes: a D-pad button and
/// the arrow key of the same direction mean that direction; South, button 0
/// and Enter select; East, button 1 and Backspace go back; North, button 2
/// and F1 are Shift; West, button 3 and F2 are Ctrl; the left triggers, F3
/// and PageUp are L1; the right triggers, F4 and PageDown are R1; Start and
/// Tab are Start; Select and Esc are Select; Mode, Home page and F switch
/// the input mode.
pub proof fn law_gamepad_buttons_by_code(k: Key)
    ensures
        (key_code(k) == 103 || key_code(k) == 0x220) ==> evdev_event_view(k) == Some(EventView::Up),
        (key_code(k) == 108 || key_code(k) == 0x221) ==> evdev_event_view(k) == Some(EventView::Down),
        (key_code(k) == 105 || key_code(k) == 0x222) ==> evdev_event_view(k) == Some(EventView::Left),
        (key_code(k) == 106 || key_code(k) == 0x223) ==> evdev_event_view(k) == Some(EventView::Right),
        (key_code(k) == 0x130 || key_code(k) == 0x100 || key_code(k) == 28) ==> evdev_event_view(k) == Some(
            EventView::Select,
        ),
        (key_code(k) == 0x131 || key_code(k) == 0x101 || key_code(k) == 14) ==> evdev_event_view(k) == Some(
            EventView::Back,
        ),
        (key_code(k) == 0x133 || key_code(k) == 0x102 || key_code(k) == 59) ==> evdev_event_view(k) == Some(
            EventView::ShiftKey,
        ),
        (key_code(k) == 0x134 || key_code(k) == 0x103 || key_code(k) == 60) ==> evdev_event_view(k) == Some(
            EventView::CtrlKey,
        ),
        (key_code(k) == 0x136 || key_code(k) == 0x138 || key_code(k) == 61 || key_code(k) == 104)
            ==> evdev_event_view(k) == Some(EventView::L1),
        (key_code(k) == 0x137 || key_code(k) == 0x139 || key_code(k) == 62 || key_code(k) == 109)
            ==> evdev_event_view(k) == Some(EventView::R1),
        (key_code(k) == 0x13b || key_code(k) == 15) ==> evdev_event_view(k) == Some(EventView::Start),
        (key_code(k) == 0x13a || key_code(k) == 1) ==> evdev_event_view(k) == Some(EventView::Select2),
        (key_code(k) == 0x13c || key_code(k) == 172 || key_code(k) == 33) ==> evdev_event_view(k) == Some(
            EventView::ToggleMode,
        ),
{
}

/// The named D-pad buttons and arrow keys map to their own direction.
pub proof fn law_dpad_and_arrows_agree()
    ensures
        evdev_event_view(Key::BTN_DPAD_UP) == Some(EventView::Up),
        evdev_event_view(Key::KEY_UP) == Some(EventView::Up),
        evdev_event_view(Key::BTN_DPAD_DOWN) == Some(EventView::Down),
        evdev_event_view(Key::KEY_DOWN) == Some(EventView::Down),
        evdev_event_view(Key::BTN_DPAD_LEFT) == Some(EventView::Left),
        evdev_event_view(Key::KEY_LEFT) == Some(EventView::Left),
        evdev_event_view(Key::BTN_DPAD_RIGHT) == Some(EventView::Right),
        evdev_event_view(Key::KEY_RIGHT) == Some(EventView::Right),
{
    law_gamepad_buttons_by_code(Key::BTN_DPAD_UP);
    law_gamepad_buttons_by_code(Key::KEY_UP);
    law_gamepad_buttons_by_code(Key::BTN_DPAD_DOWN);
    law_gamepad_buttons_by_code(Key::KEY_DOWN);
    law_gamepad_buttons_by_code(Key::BTN_DPAD_LEFT);
    law_gamepad_buttons_by_code(Key::KEY_LEFT);
    law_gamepad_buttons_by_code(Key::BTN_DPAD_RIGHT);
    law_gamepad_buttons_by_code(Key::KEY_RIGHT);
}

/// Each navigation event moves the cursor one key in its own direction,
/// wrapping at the edges of the 4 by 12 grid, and sends nothing: Up
/// decreases the row, Down increases it, Left decreases the column, Right
/// increases it.
pub proof fn law_navigation_events_move_cursor(s: SessionView)
    requires
        cursor_on_grid(s.kb),
    ensures
        ({
            let r = s.kb.cursor_row;
            let c = s.kb.cursor_col;
            &&& event_outcome(s, EventView::Up) == (SessionView {
                kb: KeyboardView { cursor_row: if r == 0 { 3 } else { (r - 1) as usize }, ..s.kb },
                ..s
            }, None::<Seq<u8>>)
            &&& event_outcome(s, EventView::Down) == (SessionView {
                kb: KeyboardView { cursor_row: if r == 3 { 0 } else { (r + 1) as usize }, ..s.kb },
                ..s
            }, None::<Seq<u8>>)
            &&& event_outcome(s, EventView::Left) == (SessionView {
                kb: KeyboardView { cursor_col: if c == 0 { 11 } else { (c - 1) as usize }, ..s.kb },
                ..s
            }, None::<Seq<u8>>)
            &&& event_outcome(s, EventView::Right) == (SessionView {
                kb: KeyboardView { cursor_col: if c == 11 { 0 } else { (c + 1) as usize }, ..s.kb },
                ..s
            }, None::<Seq<u8>>)
        }),
        event_outcome(s, EventView::Up).0.kb == moved(s.kb, Direction::Up),
        event_outcome(s, EventView::Down).0.kb == moved(s.kb, Direction::Down),
        event_outcome(s, EventView::Left).0.kb == moved(s.kb, Direction::Left),
        event_outcome(s, EventView::Right).0.kb == moved(s.kb, Direction::Right),
{
    lemma_layout_shape(s.kb.layer, s.kb.shift, s.kb.ctrl);
    let r = s.kb.cursor_row;
    assert(r == 0 || r == 1 || r == 2 || r == 3);
    assert((3int + 1) % 4 == 0 && (0int + 1) % 4 == 1 && (1int + 1) % 4 == 2 && (2int + 1) % 4 == 3) by (nonlinear_arith);
    let c = s.kb.cursor_col as int;
    assert(c < 11 ==> (c + 1) % 12 == c + 1) by (nonlinear_arith)
        requires
            0 <= c,
    ;
    assert((11int + 1) % 12 == 0) by (nonlinear_arith);
}

/// What the other events do: Select presses the key under the cursor, B,
/// Start and Select send Backspace, Enter and Escape, X and Y flip Shift and
/// Ctrl, L1 toggles the Symbols layer, R1 steps Base, Numbers, Symbols, the
/// mode key flips the input mode; only that key changes the mode, and only
/// Quit stops the session.
pub proof fn law_events_reach_keyboard(s: SessionView, e: EventView)
    ensures
        event_outcome(s, EventView::Select) == (SessionView { kb: select_outcome(s.kb).0, ..s }, select_outcome(
            s.kb,
        ).1),
        event_outcome(s, EventView::Back).1 == Some(seq![0x7Fu8]),
        event_outcome(s, EventView::Start).1 == Some(seq![0x0Du8]),
        event_outcome(s, EventView::Select2).1 == Some(seq![0x1Bu8]),
        event_outcome(s, EventView::ShiftKey).1 is None,
        event_outcome(s, EventView::ShiftKey).0.kb.shift == !s.kb.shift,
        event_outcome(s, EventView::ShiftKey).0.kb.ctrl == s.kb.ctrl,
        event_outcome(s, EventView::CtrlKey).1 is None,
        event_outcome(s, EventView::CtrlKey).0.kb.ctrl == !s.kb.ctrl,
        event_outcome(s, EventView::CtrlKey).0.kb.shift == s.kb.shift,
        event_outcome(s, EventView::L1).0.kb.layer == (if s.kb.layer == Layer::Symbols {
            Layer::Base
        } else {
            Layer::Symbols
        }),
        event_outcome(s, EventView::R1).0.kb.layer == (match s.kb.layer {
            Layer::Base => Layer::Numbers,
            Layer::Numbers => Layer::Symbols,
            Layer::Symbols => Layer::Base,
        }),
        event_outcome(s, EventView::ToggleMode).0.mode == (match s.mode {
            InputMode::Hybrid => InputMode::Gamepad,
            InputMode::Gamepad => InputMode::Hybrid,
        }),
        event_outcome(s, EventView::ToggleMode).1 is None,
        !(e is ToggleMode) ==> event_outcome(s, e).0.mode == s.mode,
{
}

/// The status bar shows "[SHIFT: ON]" exactly when Shift is active and
/// "[CTRL: ON]" exactly when Ctrl is active, each whatever the other
/// modifier is.
pub proof fn law_status_bar_shows_modifiers(s: KeyboardView, mode: Seq<char>, cols: u16, row: u16)
    ensures
        ({
            let t = crate::render::status_line_view(s, mode, cols, row).segments[2].text;
            let k: int = if s.shift { 17 } else { 13 };
            &&& (t.take(14) == " ─ [SHIFT: ON]"@) == s.shift
            &&& (t.take(10) == " ─ [SHIFT]"@) == !s.shift
            &&& (t.subrange(k, k + 10) == "[CTRL: ON]"@) == s.ctrl
            &&& (t.subrange(k, k + 6) == "[CTRL]"@) == !s.ctrl
        }),
{
    reveal_strlit(" ─ ");
    reveal_strlit("[SHIFT: ON]");
    reveal_strlit("[SHIFT]");
    reveal_strlit("[CTRL: ON]");
    reveal_strlit("[CTRL]");
    reveal_strlit(" ─ Last: ");
    reveal_strlit(" ");
    reveal_strlit(" ─ [SHIFT: ON]");
    reveal_strlit(" ─ [SHIFT]");
    let ind = if s.shift { "[SHIFT: ON]"@ } else { "[SHIFT]"@ };
    let cind = if s.ctrl { "[CTRL: ON]"@ } else { "[CTRL]"@ };
    let head = " ─ "@ + ind + " ─ "@ + cind + " ─ Last: "@;
    let t = crate::render::status_line_view(s, mode, cols, row).segments[2].text;
    assert(t =~= head + (s.desc + " "@));
    let k: int = if s.shift { 17 } else { 13 };
    assert(head.len() >= k + 10);
    assert(t.take(14) =~= head.take(14));
    assert(t.take(10) =~= head.take(10));
    assert(t.subrange(k, k + 10) =~= head.subrange(k, k + 10));
    assert(t.subrange(k, k + 6) =~= head.subrange(k, k + 6));
    if s.shift {
        assert(head.take(14) =~= " ─ [SHIFT: ON]"@);
        assert(head.take(10)[9] != " ─ [SHIFT]"@[9]);
    } else {
        assert(head.take(10) =~= " ─ [SHIFT]"@);
        assert(head.take(14)[9] != " ─ [SHIFT: ON]"@[9]);
    }
    if s.ctrl {
        assert(head.subrange(k, k + 10) =~= "[CTRL: ON]"@);
        assert(head.subrange(k, k + 6)[5] != "[CTRL]"@[5]);
    } else {
        assert(head.subrange(k, k + 6) =~= "[CTRL]"@);
        assert(head.subrange(k, k + 10)[5] != "[CTRL: ON]"@[5]);
    }
}

/// Whether a grid row types the characters of `chars`, key by key.
pub open spec fn row_types(row: Seq<crate::keyboard::KeyView>, chars: Seq<char>) -> bool {
    row.len() == chars.len() && forall|c: int| 0 <= c < chars.len() ==> #[trigger] row[c].action == KeyAction::Char(chars[c])
}

/// The base layer is the US QWERTY keyboard: digits and the keys right of
/// the letters, unshifted and shifted.
pub proof fn law_base_layer_is_us_qwerty(ctrl: bool)
    ensures
        row_types(layout_view(Layer::Base, false, ctrl)[0], "1234567890-="@),
        row_types(layout_view(Layer::Base, false, ctrl)[1], "qwertyuiop[]"@),
        row_types(layout_view(Layer::Base, false, ctrl)[2], "asdfghjkl;'\\"@),
        row_types(layout_view(Layer::Base, false, ctrl)[3], "zxcvbnm,./`_"@),
        row_types(layout_view(Layer::Base, true, ctrl)[0], "!@#$%^&*()_+"@),
        row_types(layout_view(Layer::Base, true, ctrl)[1], "QWERTYUIOP{}"@),
        row_types(layout_view(Layer::Base, true, ctrl)[2], "ASDFGHJKL:\"|"@),
        row_types(layout_view(Layer::Base, true, ctrl)[3], "ZXCVBNM<>?~+"@),
{
    reveal_strlit("1234567890-=");
    reveal_strlit("qwertyuiop[]");
    reveal_strlit("asdfghjkl;'\\");
    reveal_strlit("zxcvbnm,./`_");
    reveal_strlit("!@#$%^&*()_+");
    reveal_strlit("QWERTYUIOP{}");
    reveal_strlit("ASDFGHJKL:\"|");
    reveal_strlit("ZXCVBNM<>?~+");
    lemma_layout_shape(Layer::Base, false, ctrl);
    lemma_layout_shape(Layer::Base, true, ctrl);
}

/// The symbols layer: shifted digits, brackets and quotes, operators, and
/// the digits.
pub proof fn law_symbols_layer_rows(shift: bool, ctrl: bool)
    ensures
        row_types(layout_view(Layer::Symbols, shift, ctrl)[0], "!@#$%^&*()_+"@),
        row_types(layout_view(Layer::Symbols, shift, ctrl)[1], "~`{}[]|\\:;\"'"@),
        row_types(layout_view(Layer::Symbols, shift, ctrl)[2], "<>?/=-+*!@#$"@),
        row_types(layout_view(Layer::Symbols, shift, ctrl)[3], "0123456789,."@),
{
    reveal_strlit("!@#$%^&*()_+");
    reveal_strlit("~`{}[]|\\:;\"'");
    reveal_strlit("<>?/=-+*!@#$");
    reveal_strlit("0123456789,.");
    lemma_layout_shape(Layer::Symbols, shift, ctrl);
}

/// The numbers layer holds a keypad of digits in its first three columns,
/// the four arrows, paging and Home/End in columns three to five, and each
/// arrow key is labelled with the arrow of its own direction.
pub proof fn law_numbers_layer_keys(shift: bool, ctrl: bool)
    ensures
        ({
            let l = layout_view(Layer::Numbers, shift, ctrl);
            &&& l[0][0].action == KeyAction::Char('1') && l[0][1].action == KeyAction::Char('2') && l[0][2].action
                == KeyAction::Char('3')
            &&& l[1][0].action == KeyAction::Char('4') && l[1][1].action == KeyAction::Char('5') && l[1][2].action
                == KeyAction::Char('6')
            &&& l[2][0].action == KeyAction::Char('7') && l[2][1].action == KeyAction::Char('8') && l[2][2].action
                == KeyAction::Char('9')
            &&& l[3][0].action == KeyAction::Char('0')
            &&& l[0][3].action == KeyAction::Arrow(Direction::Up) && l[0][3].label == seq![' ', '▲', ' ']
            &&& l[1][3].action == KeyAction::Arrow(Direction::Down) && l[1][3].label == seq![' ', '▼', ' ']
            &&& l[2][3].action == KeyAction::Arrow(Direction::Left) && l[2][3].label == seq![' ', '◀', ' ']
            &&& l[2][4].action == KeyAction::Arrow(Direction::Right) && l[2][4].label == seq![' ', '▶', ' ']
            &&& l[0][4].action == KeyAction::PageUp && l[1][4].action == KeyAction::PageDown
            &&& l[0][5].action == KeyAction::Home && l[1][5].action == KeyAction::End
        }),
{
    reveal_strlit(" ▲ ");
    reveal_strlit(" ▼ ");
    reveal_strlit(" ◀ ");
    reveal_strlit(" ▶ ");
}

/// The status line names what a key did.
pub proof fn law_status_line_names_the_key(s: KeyboardView, c: char, l: Layer)
    ensures
        action_outcome(s, KeyAction::Space).0.desc == "Sent: Space"@,
        action_outcome(s, KeyAction::Enter).0.desc == "Sent: Enter"@,
        action_outcome(s, KeyAction::Tab).0.desc == "Sent: Tab"@,
        action_outcome(s, KeyAction::Escape).0.desc == "Sent: Escape"@,
        action_outcome(s, KeyAction::Backspace).0.desc == "Sent: Backspace"@,
        !s.ctrl ==> action_outcome(s, KeyAction::Char(c)).0.desc == "Sent: '"@ + seq![c] + "'"@,
        action_outcome(s, KeyAction::ToggleShift).0.desc == (if s.shift { "Shift: OFF"@ } else { "Shift: ON"@ }),
        action_outcome(s, KeyAction::ToggleCtrl).0.desc == (if s.ctrl { "Ctrl: OFF"@ } else { "Ctrl: ON"@ }),
        action_outcome(s, KeyAction::SetLayer(l)).0.desc == "Layer: "@ + (match action_outcome(
            s,
            KeyAction::SetLayer(l),
        ).0.layer {
            Layer::Base => "BASE"@,
            Layer::Numbers => "NUMS"@,
            Layer::Symbols => "SYMS"@,
        }),
{
}

/// Ctrl+Q and F10 quit, F9 and Insert switch the input mode, in either mode
/// and whatever other modifiers are held.
pub proof fn law_quit_and_mode_keys(mode: InputMode, m: KeyModifiers)
    ensures
        has_control(m) ==> key_event_view(mode, KeyEvent { code: KeyCode::Char('q'), modifiers: m }) == Some(
            EventView::Quit,
        ),
        has_control(m) ==> key_event_view(mode, KeyEvent { code: KeyCode::Char('Q'), modifiers: m }) == Some(
            EventView::Quit,
        ),
        key_event_view(mode, KeyEvent { code: KeyCode::F(10), modifiers: m }) == Some(EventView::Quit),
        key_event_view(mode, KeyEvent { code: KeyCode::F(9), modifiers: m }) == Some(EventView::ToggleMode),
        key_event_view(mode, KeyEvent { code: KeyCode::Insert, modifiers: m }) == Some(EventView::ToggleMode),
{
}

/// In the hybrid mode Ctrl with a letter other than Q sends the letter's
/// control code, A being 1 and Z 26, and Ctrl with any other character
/// sends the character itself.
pub proof fn law_hybrid_ctrl_keys(m: KeyModifiers, c: char)
    requires
        has_control(m),
        c != 'q' && c != 'Q',
    ensures
        is_ascii_letter(c) ==> key_event_view(InputMode::Hybrid, KeyEvent { code: KeyCode::Char(c), modifiers: m })
            == Some(EventView::Passthrough(seq![ctrl_code(c)])),
        is_ascii_letter(c) ==> ctrl_code(c) as int == (ascii_upper(c) as u32) - 0x40 && 'A' <= ascii_upper(c) <= 'Z',
        !is_ascii_letter(c) ==> key_event_view(InputMode::Hybrid, KeyEvent { code: KeyCode::Char(c), modifiers: m })
            == Some(EventView::Passthrough(vstd::utf8::encode_utf8(seq![c]))),
{
}

/// Where the keys of a drawn row stand among its runs: key `c` is run `2c`,
/// and the runs between keys are single spaces.
pub proof fn lemma_keys_segments_layout(keys: Seq<crate::keyboard::KeyView>, sel: int, n: int)
    requires
        1 <= n <= keys.len(),
    ensures
        keys_segments(keys, sel, n).len() == 2 * n - 1,
        forall|c: int| 0 <= c < n ==> #[trigger] keys_segments(keys, sel, n)[2 * c] == key_segment(keys[c], sel == c),
        forall|c: int| 0 <= c < n - 1 ==> #[trigger] keys_segments(keys, sel, n)[2 * c + 1] == plain(seq![' ']),
    decreases n,
{
    if n > 1 {
        lemma_keys_segments_layout(keys, sel, n - 1);
    } else {
        assert(keys_segments(keys, sel, 0) =~= Seq::<SegmentView>::empty());
    }
}

/// On the drawn grid exactly the key under the cursor is highlighted (black
/// on cyan, between arrows); every other key is white on dark grey in
/// brackets.
pub proof fn law_grid_highlights_only_the_cursor_key(s: KeyboardView, cols: u16, start_row: u16, r: int, c: int)
    requires
        0 <= r < 4,
        0 <= c < 12,
    ensures
        ({
            let seg = grid_view(s, cols, start_row)[r].segments[2 * c];
            let k = current_layout(s)[r][c];
            let label = seq![' '] + k.label + seq![' '];
            if r == s.cursor_row && c == s.cursor_col {
                seg == styled(Color::Cyan, Color::Black, seq!['▶'] + label + seq!['◀'])
            } else {
                seg == styled(Color::DarkGrey, Color::White, seq!['['] + label + seq![']'])
            }
        }),
{
    lemma_layout_shape(s.layer, s.shift, s.ctrl);
    let keys = current_layout(s)[r];
    let sel: int = if s.cursor_row == r { s.cursor_col as int } else { -1 };
    lemma_keys_segments_layout(keys, sel, 12);
    let segs = grid_view(s, cols, start_row)[r].segments;
    assert(segs == crate::render::grid_line_segments(keys, sel, cols));
    assert(segs[2 * c] == keys_segments(keys, sel, 12)[2 * c]);
}

} // verus!
