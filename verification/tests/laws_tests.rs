use cyberdeck_kb::keyboard::Direction;
use cyberdeck_kb::keyboard::KeyAction;
use cyberdeck_kb::keyboard::KeyboardState;
use cyberdeck_kb::keyboard::Layer;

#[test]
fn every_operation_keeps_cursor_on_grid() {
    let mut kb = KeyboardState::new();
    let dirs = [Direction::Up, Direction::Left, Direction::Down, Direction::Right];
    for step in 0..200usize {
        kb.move_cursor(dirs[step % 4]);
        if step % 7 == 0 {
            kb.toggle_r1();
        }
        if step % 11 == 0 {
            kb.press_select();
        }
        let layout = kb.get_layout();
        assert!(kb.cursor_row < layout.len());
        assert!(kb.cursor_col < layout[kb.cursor_row].len());
    }
}

#[test]
fn three_r1_presses_return_to_start() {
    let mut kb = KeyboardState::new();
    kb.toggle_l1();
    for _ in 0..3 {
        kb.toggle_r1();
    }
    assert_eq!(kb.active_layer, Layer::Symbols);
}

#[test]
fn ctrl_is_case_insensitive() {
    let mut kb = KeyboardState::new();
    kb.toggle_ctrl();
    let lower = kb.process_action(KeyAction::Char('c'));
    kb.toggle_ctrl();
    let upper = kb.process_action(KeyAction::Char('C'));
    assert_eq!(lower, upper);
    assert_eq!(lower, Some(vec![3]));
}

#[test]
fn shifted_letters_are_capitals() {
    let mut kb = KeyboardState::new();
    let plain = kb.get_layout();
    kb.toggle_shift();
    let shifted = kb.get_layout();
    for r in 1..4 {
        for c in 0..12 {
            if let (KeyAction::Char(a), KeyAction::Char(b)) = (plain[r][c].action, shifted[r][c].action) {
                if a.is_ascii_lowercase() {
                    assert_eq!(a.to_ascii_uppercase(), b);
                }
            }
        }
    }
}
