use cyberdeck_kb::keyboard::Direction;
use cyberdeck_kb::keyboard::KeyAction;
use cyberdeck_kb::keyboard::KeyDef;
use cyberdeck_kb::keyboard::KeyboardState;
use cyberdeck_kb::keyboard::Layer;

#[test]
fn test_cursor_navigation_and_wrapping() {
    let mut kb = KeyboardState::new();
    kb.cursor_row = 0;
    kb.cursor_col = 0;

    // Move Left wraps to end of row
    kb.move_cursor(Direction::Left);
    let layout = kb.get_layout();
    assert_eq!(kb.cursor_col, layout[0].len() - 1);

    // Move Right wraps back to start of row
    kb.move_cursor(Direction::Right);
    assert_eq!(kb.cursor_col, 0);

    // Move Up wraps to bottom row
    kb.move_cursor(Direction::Up);
    assert_eq!(kb.cursor_row, layout.len() - 1);

    // Move Down wraps to top row
    kb.move_cursor(Direction::Down);
    assert_eq!(kb.cursor_row, 0);
}

#[test]
fn test_one_shot_shift() {
    let mut kb = KeyboardState::new();
    kb.cursor_row = 1;
    kb.cursor_col = 0; // 'q'

    assert_eq!(kb.press_select(), Some(vec![b'q']));

    kb.toggle_shift();
    assert!(kb.shift_active);

    assert_eq!(kb.press_select(), Some(vec![b'Q']));
    assert!(!kb.shift_active);

    assert_eq!(kb.press_select(), Some(vec![b'q']));
}

#[test]
fn test_sticky_ctrl_modifiers() {
    let mut kb = KeyboardState::new();
    kb.cursor_row = 3;
    kb.cursor_col = 2; // 'c'

    kb.toggle_ctrl();
    assert!(kb.ctrl_active);

    assert_eq!(kb.press_select(), Some(vec![0x03]));
    assert!(!kb.ctrl_active);

    kb.cursor_row = 2;
    kb.cursor_col = 2; // 'd'
    kb.toggle_ctrl();
    assert_eq!(kb.press_select(), Some(vec![0x04]));

    kb.cursor_row = 2;
    kb.cursor_col = 8; // 'l'
    kb.toggle_ctrl();
    assert_eq!(kb.press_select(), Some(vec![0x0C]));
}

#[test]
fn test_essential_keys() {
    let mut kb = KeyboardState::new();
    assert_eq!(kb.process_action(KeyAction::Space), Some(vec![b' ']));
    assert_eq!(kb.process_action(KeyAction::Backspace), Some(vec![0x7F]));
    assert_eq!(kb.process_action(KeyAction::Enter), Some(vec![b'\r']));
    assert_eq!(kb.process_action(KeyAction::Escape), Some(vec![0x1B]));
    assert_eq!(kb.process_action(KeyAction::Tab), Some(vec![b'\t']));
}

#[test]
fn test_layers_switching() {
    let mut kb = KeyboardState::new();
    assert_eq!(kb.active_layer, Layer::Base);

    kb.toggle_r1();
    assert_eq!(kb.active_layer, Layer::Numbers);

    kb.toggle_r1();
    assert_eq!(kb.active_layer, Layer::Symbols);

    kb.toggle_r1();
    assert_eq!(kb.active_layer, Layer::Base);

    kb.toggle_l1();
    assert_eq!(kb.active_layer, Layer::Symbols);
}

#[test]
fn test_touch_tap_and_hit_test() {
    let mut kb = KeyboardState::new();
    // Row 0 start_row = 10. Key 0 ('1') is cols 0..2, Key 1 ('2') is cols 4..6
    assert_eq!(kb.hit_test(1, 10, 10), Some((0, 0)));
    assert_eq!(kb.hit_test(5, 10, 10), Some((0, 1)));

    let output = kb.tap_key(0, 0);
    assert_eq!(output, Some(vec![b'1']));
    assert_eq!(kb.cursor_row, 0);
    assert_eq!(kb.cursor_col, 0);
}

// ---------------------------------------------------------------------------

#[test]
fn initial_state_is_ready_on_base_layer() {
    let kb = KeyboardState::new();
    assert_eq!(kb.cursor_row, 1);
    assert_eq!(kb.cursor_col, 0);
    assert_eq!(kb.active_layer, Layer::Base);
    assert!(!kb.shift_active);
    assert!(!kb.ctrl_active);
    assert!(kb.visible);
    assert_eq!(kb.last_output_desc, "Ready");
    let d = KeyboardState::default();
    assert_eq!(d.last_output_desc, "Ready");
}

#[test]
fn layouts_are_four_rows_of_twelve() {
    let mut kb = KeyboardState::new();
    for _ in 0..3 {
        let layout = kb.get_layout();
        assert_eq!(layout.len(), 4);
        for row in &layout {
            assert_eq!(row.len(), 12);
        }
        kb.toggle_r1();
    }
}

#[test]
fn base_layout_labels_follow_shift_and_ctrl() {
    let mut kb = KeyboardState::new();
    let layout = kb.get_layout();
    assert_eq!(layout[0][0].label, "1");
    assert_eq!(layout[1][0].label, "q");
    assert_eq!(layout[1][10].label, "[");
    assert_eq!(layout[3][11].label, "_");
    kb.toggle_shift();
    let layout = kb.get_layout();
    assert_eq!(layout[0][0].label, "!");
    assert_eq!(layout[1][0].label, "Q");
    assert_eq!(layout[1][10].label, "{");
    assert_eq!(layout[2][10].label, "\"");
    kb.toggle_shift();
    kb.toggle_ctrl();
    let layout = kb.get_layout();
    assert_eq!(layout[1][0].label, "^Q");
    assert_eq!(layout[3][6].label, "^M");
    assert_eq!(layout[0][0].label, "1");
    assert_eq!(layout[3][7].label, ",");
}

#[test]
fn numbers_layer_has_navigation_keys() {
    let mut kb = KeyboardState::new();
    kb.toggle_r1();
    let layout = kb.get_layout();
    assert_eq!(layout[0][3].label, " ▲ ");
    assert_eq!(layout[0][3].action, KeyAction::Arrow(Direction::Up));
    assert_eq!(layout[1][4].label, "PgDn");
    assert_eq!(layout[1][4].action, KeyAction::PageDown);
    assert_eq!(layout[2][4].label, " ▶ ");
    assert_eq!(layout[3][7].action, KeyAction::Char('\\'));
}

#[test]
fn symbols_layer_rows() {
    let mut kb = KeyboardState::new();
    kb.toggle_l1();
    let layout = kb.get_layout();
    let row3: String = layout[3].iter().map(|k| k.label.clone()).collect();
    assert_eq!(row3, "0123456789,.");
    let row1: String = layout[1].iter().map(|k| k.label.clone()).collect();
    assert_eq!(row1, "~`{}[]|\\:;\"'");
}

#[test]
fn key_def_constructors() {
    let k = KeyDef::new_char('é');
    assert_eq!(k.label, "é");
    assert_eq!(k.action, KeyAction::Char('é'));
    let a = KeyDef::new_action("Home", KeyAction::Home);
    assert_eq!(a.label, "Home");
    assert_eq!(a.action, KeyAction::Home);
}

#[test]
fn layer_names() {
    assert_eq!(Layer::Base.name(), "BASE");
    assert_eq!(Layer::Numbers.name(), "NUMS");
    assert_eq!(Layer::Symbols.name(), "SYMS");
}

#[test]
fn move_cursor_clamps_out_of_range_column() {
    let mut kb = KeyboardState::new();
    kb.cursor_row = 0;
    kb.cursor_col = 40;
    kb.move_cursor(Direction::Down);
    assert_eq!(kb.cursor_row, 1);
    assert_eq!(kb.cursor_col, 11);
    kb.cursor_col = 40;
    kb.move_cursor(Direction::Left);
    assert_eq!(kb.cursor_col, 11);
    kb.cursor_row = 4;
    kb.move_cursor(Direction::Up);
    assert_eq!(kb.cursor_row, 3);
}

#[test]
fn inverse_moves_restore_cursor() {
    let mut kb = KeyboardState::new();
    kb.cursor_row = 2;
    kb.cursor_col = 5;
    kb.move_cursor(Direction::Left);
    kb.move_cursor(Direction::Right);
    assert_eq!((kb.cursor_row, kb.cursor_col), (2, 5));
    kb.move_cursor(Direction::Up);
    kb.move_cursor(Direction::Down);
    assert_eq!((kb.cursor_row, kb.cursor_col), (2, 5));
    for _ in 0..4 {
        kb.move_cursor(Direction::Down);
    }
    assert_eq!(kb.cursor_row, 2);
}

#[test]
fn toggles_report_status() {
    let mut kb = KeyboardState::new();
    kb.toggle_shift();
    assert_eq!(kb.last_output_desc, "Shift: ON");
    kb.toggle_shift();
    assert_eq!(kb.last_output_desc, "Shift: OFF");
    assert!(!kb.shift_active);
    kb.toggle_ctrl();
    assert_eq!(kb.last_output_desc, "Ctrl: ON");
    kb.toggle_ctrl();
    assert_eq!(kb.last_output_desc, "Ctrl: OFF");
    assert!(!kb.toggle_visibility());
    assert_eq!(kb.last_output_desc, "Keyboard: HIDDEN");
    assert!(kb.toggle_visibility());
    assert_eq!(kb.last_output_desc, "Keyboard: SHOWN");
}

#[test]
fn switching_to_active_layer_returns_to_base() {
    let mut kb = KeyboardState::new();
    kb.cursor_row = 3;
    kb.cursor_col = 7;
    kb.switch_to_layer(Layer::Numbers);
    assert_eq!(kb.active_layer, Layer::Numbers);
    assert_eq!((kb.cursor_row, kb.cursor_col), (0, 0));
    assert_eq!(kb.last_output_desc, "Layer: NUMS");
    kb.switch_to_layer(Layer::Numbers);
    assert_eq!(kb.active_layer, Layer::Base);
    assert_eq!(kb.last_output_desc, "Layer: BASE");
    kb.toggle_l1();
    kb.toggle_l1();
    assert_eq!(kb.active_layer, Layer::Base);
    assert!(kb.process_action(KeyAction::SetLayer(Layer::Symbols)).is_none());
    assert_eq!(kb.active_layer, Layer::Symbols);
}

#[test]
fn ctrl_status_line_shows_code_in_hex() {
    let mut kb = KeyboardState::new();
    kb.toggle_ctrl();
    assert_eq!(kb.process_action(KeyAction::Char('z')), Some(vec![0x1A]));
    assert_eq!(kb.last_output_desc, "Sent: ^Z (0x1A)");
    kb.toggle_ctrl();
    assert_eq!(kb.process_action(KeyAction::Char('1')), Some(vec![b'1']));
    assert_eq!(kb.last_output_desc, "Sent: '1'");
    assert!(!kb.ctrl_active);
    assert_eq!(kb.process_action(KeyAction::Char('ü')), Some("ü".as_bytes().to_vec()));
    assert_eq!(kb.last_output_desc, "Sent: 'ü'");
}

#[test]
fn text_and_navigation_actions() {
    let mut kb = KeyboardState::new();
    kb.toggle_shift();
    kb.toggle_ctrl();
    assert_eq!(kb.process_action(KeyAction::Backspace), Some(vec![0x7F]));
    assert!(kb.shift_active && kb.ctrl_active);
    assert_eq!(kb.process_action(KeyAction::Tab), Some(vec![b'\t']));
    assert!(kb.shift_active && kb.ctrl_active);
    assert_eq!(kb.process_action(KeyAction::Text("ls -la")), Some(b"ls -la".to_vec()));
    assert_eq!(kb.last_output_desc, "Sent text: \"ls -la\"");
    assert!(!kb.shift_active && !kb.ctrl_active);
    assert_eq!(kb.process_action(KeyAction::Arrow(Direction::Up)), Some(vec![0x1B, b'[', b'A']));
    assert_eq!(kb.process_action(KeyAction::Arrow(Direction::Left)), Some(vec![0x1B, b'[', b'D']));
    assert_eq!(kb.process_action(KeyAction::PageUp), Some(vec![0x1B, b'[', b'5', b'~']));
    assert_eq!(kb.process_action(KeyAction::PageDown), Some(vec![0x1B, b'[', b'6', b'~']));
    assert_eq!(kb.process_action(KeyAction::Home), Some(vec![0x1B, b'[', b'H']));
    assert_eq!(kb.process_action(KeyAction::End), Some(vec![0x1B, b'[', b'F']));
    assert_eq!(kb.process_action(KeyAction::ToggleShift), None);
    assert!(kb.shift_active);
    assert_eq!(kb.process_action(KeyAction::ToggleCtrl), None);
    assert!(kb.ctrl_active);
}

#[test]
fn selected_key_off_grid_is_none() {
    let mut kb = KeyboardState::new();
    kb.cursor_row = 2;
    kb.cursor_col = 3;
    let k = kb.selected_key().unwrap();
    assert_eq!(k.label, "f");
    kb.cursor_col = 12;
    assert!(kb.selected_key().is_none());
    assert_eq!(kb.press_select(), None);
    kb.cursor_row = 9;
    kb.cursor_col = 0;
    assert!(kb.selected_key().is_none());
}

#[test]
fn hit_test_gaps_hidden_and_outside() {
    let mut kb = KeyboardState::new();
    // key 0 spans columns 0..3, column 3 is the gap
    assert_eq!(kb.hit_test(3, 10, 10), None);
    assert_eq!(kb.hit_test(0, 13, 10), Some((3, 0)));
    assert_eq!(kb.hit_test(0, 14, 10), None);
    assert_eq!(kb.hit_test(0, 9, 10), None);
    // last key of a row starts at 11 * 4 = 44
    assert_eq!(kb.hit_test(46, 10, 10), Some((0, 11)));
    assert_eq!(kb.hit_test(47, 10, 10), None);
    kb.toggle_visibility();
    assert_eq!(kb.hit_test(1, 10, 10), None);
}

#[test]
fn hit_test_counts_label_bytes_on_numbers_layer() {
    let mut kb = KeyboardState::new();
    kb.toggle_r1();
    // keys 0..2 are 3 wide; " ▲ " is 5 bytes, so key 3 spans 12..19
    assert_eq!(kb.hit_test(12, 0, 0), Some((0, 3)));
    assert_eq!(kb.hit_test(18, 0, 0), Some((0, 3)));
    assert_eq!(kb.hit_test(19, 0, 0), None);
    assert_eq!(kb.hit_test(20, 0, 0), Some((0, 4)));
}

#[test]
fn tap_key_out_of_range_changes_nothing() {
    let mut kb = KeyboardState::new();
    assert_eq!(kb.tap_key(4, 0), None);
    assert_eq!(kb.tap_key(0, 12), None);
    assert_eq!((kb.cursor_row, kb.cursor_col), (1, 0));
    assert_eq!(kb.last_output_desc, "Ready");
    assert_eq!(kb.tap_key(1, 9), Some(vec![b'p']));
    assert_eq!((kb.cursor_row, kb.cursor_col), (1, 9));
}
