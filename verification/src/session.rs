//! The decisions of the interactive session: how input events change the
//! keyboard and which bytes go to the shell, and how the screen is shared
//! between the shell and the keyboard.

use vstd::prelude::*;
use crate::input::EventView;
use crate::input::InputEvent;
use crate::input::InputMode;
use crate::input::PcKeyboardInput;
use crate::input::mode_name;
use crate::input::other_mode;
use crate::keyboard::Direction;
use crate::keyboard::KeyAction;
use crate::keyboard::KeyboardState;
use crate::keyboard::KeyboardView;
use crate::keyboard::Layer;
use crate::keyboard::action_outcome;
use crate::keyboard::can_move;
use crate::keyboard::current_layout;
use crate::keyboard::hit_key;
use crate::keyboard::lemma_layout_shape;
use crate::keyboard::moved;
use crate::keyboard::next_layer;
use crate::keyboard::on_layer;
use crate::keyboard::opt_bytes_view;
use crate::keyboard::select_outcome;
use crate::keyboard::switched_layer;
use crate::keyboard::toggled_ctrl;
use crate::keyboard::toggled_shift;
use crate::keyboard::with_cursor;
use crate::keyboard::with_desc;

verus! {

pub open spec fn sat_sub(a: int, b: int) -> int {
    if a > b { a - b } else { 0 }
}

pub open spec fn at_least_one(a: int) -> int {
    if a < 1 { 1 } else { a }
}

/// Rows left to the shell's own terminal: the screen less the keyboard grid
/// and its two status lines, at least one.
pub open spec fn pty_rows_for(rows: int, grid_rows: int) -> int {
    at_least_one(sat_sub(rows, grid_rows + 2))
}

/// Rows of shell output drawn above the status line.
pub open spec fn shell_height_for(rows: int, grid_rows: int) -> int {
    if rows > grid_rows + 4 {
        rows - (grid_rows + 2)
    } else {
        sat_sub(rows, grid_rows + 1)
    }
}

/// The terminal size to use at start: 80 by 30 when the probe failed or
/// reported a zero dimension.
pub open spec fn startup_size_view(probed: Option<(u16, u16)>) -> (u16, u16) {
    match probed {
        Some((c, r)) => if c == 0 || r == 0 { (80u16, 30u16) } else { (c, r) },
        None => (80u16, 30u16),
    }
}

pub fn startup_size(probed: Option<(u16, u16)>) -> (s: (u16, u16))
    ensures
        s == startup_size_view(probed),
{
    let (mut cols, mut rows) = match probed {
        Some(s) => s,
        None => (80u16, 30u16),
    };
    if cols == 0 || rows == 0 {
        cols = 80;
        rows = 30;
    }
    (cols, rows)
}

/// The terminal size after a resize: a zero width becomes 80 and a zero
/// height 30, each on its own.
pub fn resized_size(new_cols: u16, new_rows: u16) -> (s: (u16, u16))
    ensures
        s.0 == (if new_cols > 0 { new_cols } else { 80u16 }),
        s.1 == (if new_rows > 0 { new_rows } else { 30u16 }),
{
    let cols = if new_cols > 0 { new_cols } else { 80 };
    let rows = if new_rows > 0 { new_rows } else { 30 };
    (cols, rows)
}

/// The number of rows of the shell's terminal for a screen of `rows` rows.
pub fn pty_rows(kb: &KeyboardState, rows: u16) -> (r: u16)
    ensures
        r == pty_rows_for(rows as int, current_layout(kb@).len() as int),
{
    let layout = kb.get_layout();
    proof {
        lemma_layout_shape(kb.active_layer, kb.shift_active, kb.ctrl_active);
    }
    let kb_rows = layout.len() as u16 + 2;
    let shell_rows = if rows > kb_rows + 2 {
        rows - kb_rows
    } else {
        rows.saturating_sub(kb_rows)
    };
    if shell_rows < 1 {
        1
    } else {
        shell_rows
    }
}

/// The number of shell rows drawn above the keyboard on a screen of `rows`
/// rows.
pub fn shell_height(kb: &KeyboardState, rows: u16) -> (h: u16)
    ensures
        h == shell_height_for(rows as int, current_layout(kb@).len() as int),
        h <= rows,
{
    let layout = kb.get_layout();
    proof {
        lemma_layout_shape(kb.active_layer, kb.shift_active, kb.ctrl_active);
    }
    let kb_rows = layout.len() as u16;
    let status_bar_height = 2u16;
    let kb_total_height = kb_rows + status_bar_height;
    if rows > kb_total_height + 2 {
        rows - kb_total_height
    } else {
        rows.saturating_sub(kb_rows + 1)
    }
}

/// A left click at (column, row): the key under it is tapped.
pub fn handle_click(kb: &mut KeyboardState, column: u16, row: u16, rows: u16) -> (out: Option<Vec<u8>>)
    ensures
        ({
            let start = (shell_height_for(rows as int, current_layout(old(kb)@).len() as int) + 1) as u16;
            match hit_key(old(kb)@, column, row, start) {
                Some((r, c)) => (final(kb)@, opt_bytes_view(out)) == select_outcome(with_cursor(old(kb)@, r, c)),
                None => final(kb)@ == old(kb)@ && out is None,
            }
        }),
{
    let kb_start_row = shell_height(kb, rows) + 1;
    if let Some((r, c)) = kb.hit_test(column, row, kb_start_row) {
        proof {
            lemma_layout_shape(kb.active_layer, kb.shift_active, kb.ctrl_active);
        }
        kb.tap_key(r, c)
    } else {
        None
    }
}

/// The session's state as seen by an input event: the keyboard, the input
/// mode and whether the session keeps running.
pub struct SessionView {
    pub kb: KeyboardView,
    pub mode: InputMode,
    pub running: bool,
}

/// Whether an event may be applied: moving the cursor needs it to be where
/// `move_cursor` can move it from.
pub open spec fn event_allowed(kb: KeyboardView, e: EventView) -> bool {
    match e {
        EventView::Up => can_move(kb, Direction::Up),
        EventView::Down => can_move(kb, Direction::Down),
        EventView::Left => can_move(kb, Direction::Left),
        EventView::Right => can_move(kb, Direction::Right),
        _ => true,
    }
}

pub open spec fn keyboard_step(s: SessionView, kb: (KeyboardView, Option<Seq<u8>>)) -> (SessionView, Option<Seq<u8>>) {
    (SessionView { kb: kb.0, ..s }, kb.1)
}

/// What one input event does: the new session state and the bytes for the
/// shell.
pub open spec fn event_outcome(s: SessionView, e: EventView) -> (SessionView, Option<Seq<u8>>) {
    match e {
        EventView::Up => keyboard_step(s, (moved(s.kb, Direction::Up), None)),
        EventView::Down => keyboard_step(s, (moved(s.kb, Direction::Down), None)),
        EventView::Left => keyboard_step(s, (moved(s.kb, Direction::Left), None)),
        EventView::Right => keyboard_step(s, (moved(s.kb, Direction::Right), None)),
        EventView::Select => keyboard_step(s, select_outcome(s.kb)),
        EventView::Back => keyboard_step(s, action_outcome(s.kb, KeyAction::Backspace)),
        EventView::ShiftKey => keyboard_step(s, (toggled_shift(s.kb), None)),
        EventView::CtrlKey => keyboard_step(s, (toggled_ctrl(s.kb), None)),
        EventView::L1 => keyboard_step(s, (switched_layer(s.kb, Layer::Symbols), None)),
        EventView::R1 => keyboard_step(s, (on_layer(s.kb, next_layer(s.kb.layer)), None)),
        EventView::Start => keyboard_step(s, action_outcome(s.kb, KeyAction::Enter)),
        EventView::Select2 => keyboard_step(s, action_outcome(s.kb, KeyAction::Escape)),
        EventView::Passthrough(b) => (s, Some(b)),
        EventView::ToggleMode => (
            SessionView {
                kb: with_desc(s.kb, "Mode: "@ + mode_name(other_mode(s.mode))),
                mode: other_mode(s.mode),
                ..s
            },
            None,
        ),
        EventView::Quit => (SessionView { running: false, ..s }, None),
    }
}

/// Applies one input event; returns the bytes to write to the shell.
pub fn process_input_event(
    event: InputEvent,
    kb: &mut KeyboardState,
    input_mapper: &mut PcKeyboardInput,
    running: &mut bool,
) -> (out: Option<Vec<u8>>)
    requires
        event_allowed(old(kb)@, event@),
    ensures
        (SessionView { kb: final(kb)@, mode: final(input_mapper).mode, running: *final(running) }, opt_bytes_view(out))
            == event_outcome(
            SessionView { kb: old(kb)@, mode: old(input_mapper).mode, running: *old(running) },
            event@,
        ),
{
    match event {
        InputEvent::Up => {
            kb.move_cursor(Direction::Up);
            None
        },
        InputEvent::Down => {
            kb.move_cursor(Direction::Down);
            None
        },
        InputEvent::Left => {
            kb.move_cursor(Direction::Left);
            None
        },
        InputEvent::Right => {
            kb.move_cursor(Direction::Right);
            None
        },
        InputEvent::Select => kb.press_select(),
        InputEvent::Back => kb.process_action(KeyAction::Backspace),
        InputEvent::ShiftKey => {
            kb.toggle_shift();
            None
        },
        InputEvent::CtrlKey => {
            kb.toggle_ctrl();
            None
        },
        InputEvent::L1 => {
            kb.toggle_l1();
            None
        },
        InputEvent::R1 => {
            kb.toggle_r1();
            None
        },
        InputEvent::Start => kb.process_action(KeyAction::Enter),
        InputEvent::Select2 => kb.process_action(KeyAction::Escape),
        InputEvent::Passthrough(bytes) => Some(bytes),
        InputEvent::ToggleMode => {
            let new_mode = input_mapper.toggle_mode();
            let mut desc = String::from_str("Mode: ");
            desc.append(new_mode.name());
            kb.last_output_desc = desc;
            None
        },
        InputEvent::Quit => {
            *running = false;
            None
        },
    }
}

} // verus!
