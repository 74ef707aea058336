use cyberdeck_kb::input::InputEvent;
use cyberdeck_kb::input::InputMode;
use cyberdeck_kb::input::PcKeyboardInput;
use cyberdeck_kb::keyboard::KeyboardState;
use cyberdeck_kb::keyboard::Layer;
use cyberdeck_kb::launcher::parse_launcher_args;
use cyberdeck_kb::launcher::is_launch_press;
use cyberdeck_kb::launcher::LauncherCommand;
use cyberdeck_kb::input::Key;
use cyberdeck_kb::input::RawInputEvent;
use cyberdeck_kb::session::handle_click;
use cyberdeck_kb::session::process_input_event;
use cyberdeck_kb::session::pty_rows;
use cyberdeck_kb::session::resized_size;
use cyberdeck_kb::session::shell_height;
use cyberdeck_kb::session::startup_size;
use cyberdeck_kb::shell::is_whitespace;
use cyberdeck_kb::shell::shell_command_parts;
use cyberdeck_kb::shell::split_whitespace;

#[test]
fn events_drive_keyboard_and_shell() {
    let mut kb = KeyboardState::new();
    let mut input = PcKeyboardInput::new();
    let mut running = true;
    assert_eq!(process_input_event(InputEvent::Down, &mut kb, &mut input, &mut running), None);
    assert_eq!(kb.cursor_row, 2);
    assert_eq!(process_input_event(InputEvent::Select, &mut kb, &mut input, &mut running), Some(vec![b'a']));
    assert_eq!(process_input_event(InputEvent::Back, &mut kb, &mut input, &mut running), Some(vec![0x7F]));
    assert_eq!(process_input_event(InputEvent::Start, &mut kb, &mut input, &mut running), Some(vec![b'\r']));
    assert_eq!(process_input_event(InputEvent::Select2, &mut kb, &mut input, &mut running), Some(vec![0x1B]));
    assert_eq!(
        process_input_event(InputEvent::Passthrough(vec![1, 2, 3]), &mut kb, &mut input, &mut running),
        Some(vec![1, 2, 3])
    );
    process_input_event(InputEvent::R1, &mut kb, &mut input, &mut running);
    assert_eq!(kb.active_layer, Layer::Numbers);
    process_input_event(InputEvent::L1, &mut kb, &mut input, &mut running);
    assert_eq!(kb.active_layer, Layer::Symbols);
    process_input_event(InputEvent::ShiftKey, &mut kb, &mut input, &mut running);
    assert!(kb.shift_active);
    process_input_event(InputEvent::CtrlKey, &mut kb, &mut input, &mut running);
    assert!(kb.ctrl_active);
    process_input_event(InputEvent::ToggleMode, &mut kb, &mut input, &mut running);
    assert_eq!(input.mode, InputMode::Gamepad);
    assert_eq!(kb.last_output_desc, "Mode: GAMEPAD ONLY");
    assert!(running);
    assert_eq!(process_input_event(InputEvent::Quit, &mut kb, &mut input, &mut running), None);
    assert!(!running);
}

#[test]
fn screen_sizes() {
    assert_eq!(startup_size(Some((100, 40))), (100, 40));
    assert_eq!(startup_size(Some((0, 40))), (80, 30));
    assert_eq!(startup_size(None), (80, 30));
    assert_eq!(resized_size(0, 40), (80, 40));
    assert_eq!(resized_size(120, 0), (120, 30));
    let kb = KeyboardState::new();
    assert_eq!(pty_rows(&kb, 30), 24);
    assert_eq!(pty_rows(&kb, 6), 1);
    assert_eq!(pty_rows(&kb, 3), 1);
    assert_eq!(shell_height(&kb, 30), 24);
    assert_eq!(shell_height(&kb, 9), 3);
    assert_eq!(shell_height(&kb, 8), 3);
    assert_eq!(shell_height(&kb, 7), 2);
    assert_eq!(shell_height(&kb, 4), 0);
}

#[test]
fn click_taps_the_key_under_the_pointer() {
    let mut kb = KeyboardState::new();
    // 30 rows: 24 shell rows, status on row 24, grid from row 25
    assert_eq!(handle_click(&mut kb, 1, 25, 30), Some(vec![b'1']));
    assert_eq!((kb.cursor_row, kb.cursor_col), (0, 0));
    assert_eq!(handle_click(&mut kb, 5, 26, 30), Some(vec![b'w']));
    assert_eq!(handle_click(&mut kb, 5, 10, 30), None);
    assert_eq!((kb.cursor_row, kb.cursor_col), (1, 1));
}

#[test]
fn launcher_arguments() {
    let args = |v: &[&str]| v.iter().map(|s| s.to_string()).collect::<Vec<String>>();
    match parse_launcher_args(&args(&["deck-launcher"])) {
        LauncherCommand::Run(o) => {
            assert_eq!(o.device, None);
            assert_eq!(o.process, "emulationstation");
            assert_eq!(o.cyberdeck, "cyberdeck-kb");
            assert!(!o.test_mock);
        },
        LauncherCommand::Help => panic!("unexpected help"),
    }
    match parse_launcher_args(&args(&[
        "deck-launcher", "--device", "/dev/input/event4", "--process", "es", "--test-mock", "--bogus",
        "--cyberdeck",
    ])) {
        LauncherCommand::Run(o) => {
            assert_eq!(o.device, Some("/dev/input/event4".to_string()));
            assert_eq!(o.process, "es");
            assert_eq!(o.cyberdeck, "cyberdeck-kb");
            assert!(o.test_mock);
        },
        LauncherCommand::Help => panic!("unexpected help"),
    }
    assert!(matches!(parse_launcher_args(&args(&["x", "--device", "d", "-h"])), LauncherCommand::Help));
    assert!(matches!(parse_launcher_args(&args(&["x", "--help"])), LauncherCommand::Help));
    // an option's value is never read as an option
    match parse_launcher_args(&args(&["x", "--process", "--help"])) {
        LauncherCommand::Run(o) => assert_eq!(o.process, "--help"),
        LauncherCommand::Help => panic!("unexpected help"),
    }
}

#[test]
fn launch_button_presses() {
    assert!(is_launch_press(&RawInputEvent { key: Some(Key::BTN_MODE), value: 1 }));
    assert!(is_launch_press(&RawInputEvent { key: Some(Key::KEY_F), value: 1 }));
    assert!(is_launch_press(&RawInputEvent { key: Some(Key::Other(172)), value: 1 }));
    assert!(!is_launch_press(&RawInputEvent { key: Some(Key::BTN_MODE), value: 0 }));
    assert!(!is_launch_press(&RawInputEvent { key: Some(Key::BTN_SOUTH), value: 1 }));
    assert!(!is_launch_press(&RawInputEvent { key: None, value: 1 }));
}

#[test]
fn shell_command_words() {
    let (p, a) = shell_command_parts("/bin/sh -l  -i ");
    assert_eq!(p, "/bin/sh");
    assert_eq!(a, vec!["-l".to_string(), "-i".to_string()]);
    let (p, a) = shell_command_parts("   ");
    assert_eq!(p, "/bin/bash");
    assert!(a.is_empty());
    let (p, a) = shell_command_parts("zsh");
    assert_eq!(p, "zsh");
    assert!(a.is_empty());
}

#[test]
fn whitespace_matches_std() {
    for u in 0u32..0x3100 {
        if let Some(c) = char::from_u32(u) {
            assert_eq!(is_whitespace(c), c.is_whitespace(), "{:#x}", u);
        }
    }
    for s in ["", " a  b\tc\n", "\u{3000}x\u{2003}y", "one", "  lead", "trail  "] {
        let ours = split_whitespace(s);
        let theirs: Vec<String> = s.split_whitespace().map(|w| w.to_string()).collect();
        assert_eq!(ours, theirs);
    }
}
