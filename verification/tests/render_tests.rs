use cyberdeck_kb::keyboard::KeyboardState;
use cyberdeck_kb::render::render_frame;
use cyberdeck_kb::render::render_keyboard_grid;
use cyberdeck_kb::render::render_legend;
use cyberdeck_kb::render::render_shell_area;
use cyberdeck_kb::render::render_status_bar;
use cyberdeck_kb::render::Color;
use cyberdeck_kb::render::ScreenLine;

fn text(line: &ScreenLine) -> String {
    line.segments.iter().map(|s| s.text.clone()).collect()
}

#[test]
fn shell_area_pads_and_draws_cursor() {
    let rows = vec!["hello".chars().collect::<Vec<char>>(), "x".chars().collect()];
    let lines = render_shell_area(&rows, (0, 1), false, 8, 3);
    assert_eq!(lines.len(), 3);
    assert_eq!(lines[0].row, 0);
    assert_eq!(lines[0].segments.len(), 3);
    assert_eq!(lines[0].segments[0].text, "h");
    assert_eq!(lines[0].segments[1].text, "e");
    assert_eq!(lines[0].segments[1].bg, Some(Color::White));
    assert_eq!(lines[0].segments[1].fg, Some(Color::Black));
    assert_eq!(lines[0].segments[2].text, "llo   ");
    assert_eq!(text(&lines[1]), "x       ");
    assert_eq!(lines[1].segments.len(), 1);
    assert_eq!(text(&lines[2]), "        ");
    let hidden = render_shell_area(&rows, (0, 1), true, 4, 1);
    assert_eq!(hidden[0].segments.len(), 1);
    assert_eq!(text(&hidden[0]), "hell");
}

#[test]
fn status_bar_text() {
    let kb = KeyboardState::new();
    let line = render_status_bar(&kb, "GAMEPAD ONLY", 10, 5);
    assert_eq!(line.row, 5);
    assert_eq!(line.segments[0].text, " ⌨ cyberdeck-kb ─ [GAMEPAD ONLY] ─ Layer: ");
    assert_eq!(line.segments[1].text, "BASE");
    assert_eq!(line.segments[1].fg, Some(Color::Green));
    assert_eq!(line.segments[2].text, " ─ [SHIFT] ─ [CTRL] ─ Last: Ready ");
    assert_eq!(line.segments[3].text, "");
    let wide = render_status_bar(&kb, "X", 200, 0);
    let used = wide.segments[0].text.len() + wide.segments[1].text.len() + wide.segments[2].text.len();
    assert_eq!(wide.segments[3].text.chars().count(), 200 - used);
}

#[test]
fn keyboard_grid_marks_selection() {
    let mut kb = KeyboardState::new();
    kb.cursor_row = 0;
    kb.cursor_col = 1;
    let lines = render_keyboard_grid(&kb, 100, 7);
    assert_eq!(lines.len(), 4);
    assert_eq!(lines[0].row, 7);
    assert_eq!(lines[3].row, 10);
    assert_eq!(lines[0].segments[0].text, "[ 1 ]");
    assert_eq!(lines[0].segments[1].text, " ");
    assert_eq!(lines[0].segments[2].text, "▶ 2 ◀");
    assert_eq!(lines[0].segments[2].bg, Some(Color::Cyan));
    // 12 keys of width 5 and 11 gaps make 71 columns; 29 blanks follow
    assert_eq!(lines[1].segments.last().unwrap().text, " ".repeat(29));
}

#[test]
fn legend_and_frame() {
    let legend = render_legend(120, 3);
    assert_eq!(legend.segments[0].text.len(), 98);
    assert_eq!(legend.segments[1].text, " ".repeat(22));
    let kb = KeyboardState::new();
    let rows = vec!["$ ls".chars().collect::<Vec<char>>()];
    let frame = render_frame(&rows, (0, 4), false, &kb, "DIRECT / HYBRID", 40, 12);
    // 6 shell rows, status, 4 grid rows, legend
    assert_eq!(frame.len(), 12);
    assert_eq!(frame[6].row, 6);
    assert_eq!(frame[7].row, 7);
    assert_eq!(frame[11].row, 11);
    let small = render_frame(&rows, (0, 0), true, &kb, "DIRECT / HYBRID", 40, 8);
    // 3 shell rows, status, grid; no room for the legend
    assert_eq!(small.len(), 8);
    assert_eq!(small[7].row, 7);
}
