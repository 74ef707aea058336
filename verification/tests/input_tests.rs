use cyberdeck_kb::input::EvdevGamepadInput;
use cyberdeck_kb::input::InputEvent;
use cyberdeck_kb::input::InputMode;
use cyberdeck_kb::input::Key;
use cyberdeck_kb::input::KeyCode;
use cyberdeck_kb::input::KeyEvent;
use cyberdeck_kb::input::KeyModifiers;
use cyberdeck_kb::input::PcKeyboardInput;
use cyberdeck_kb::input::RawInputEvent;
use crossterm::event::KeyModifiers as Ct;

#[test]
fn test_pc_input_mapping() {
    let mut input = PcKeyboardInput::new();
    assert_eq!(input.mode, InputMode::Hybrid);

    // Direct typing in Hybrid mode
    assert_eq!(
        input.map_key(KeyEvent::new(KeyCode::Char('a'), KeyModifiers::none())),
        Some(InputEvent::Passthrough(vec![b'a']))
    );
    assert_eq!(
        input.map_key(KeyEvent::new(KeyCode::Enter, KeyModifiers::none())),
        Some(InputEvent::Passthrough(vec![b'\r']))
    );
    assert_eq!(
        input.map_key(KeyEvent::new(KeyCode::Char('c'), KeyModifiers::control())),
        Some(InputEvent::Passthrough(vec![0x03])) // Ctrl+C
    );

    // Navigation still works in Hybrid mode
    assert_eq!(input.map_key(KeyEvent::new(KeyCode::Up, KeyModifiers::none())), Some(InputEvent::Up));

    // Switch to Gamepad mode
    input.toggle_mode();
    assert_eq!(input.mode, InputMode::Gamepad);

    // In Gamepad mode, 'j' selects, 'k' backspaces
    assert_eq!(input.map_key(KeyEvent::new(KeyCode::Char('j'), KeyModifiers::none())), Some(InputEvent::Select));
    assert_eq!(input.map_key(KeyEvent::new(KeyCode::Char('k'), KeyModifiers::none())), Some(InputEvent::Back));

    // Mode toggle key
    assert_eq!(input.map_key(KeyEvent::new(KeyCode::F(9), KeyModifiers::none())), Some(InputEvent::ToggleMode));

    // Quit
    assert_eq!(input.map_key(KeyEvent::new(KeyCode::Char('q'), KeyModifiers::control())), Some(InputEvent::Quit));
}

#[test]
fn test_evdev_key_mapping() {
    assert_eq!(EvdevGamepadInput::map_evdev_key(Key::BTN_SOUTH), Some(InputEvent::Select));
    assert_eq!(EvdevGamepadInput::map_evdev_key(Key::BTN_EAST), Some(InputEvent::Back));
    assert_eq!(EvdevGamepadInput::map_evdev_key(Key::BTN_NORTH), Some(InputEvent::ShiftKey));
    assert_eq!(EvdevGamepadInput::map_evdev_key(Key::BTN_WEST), Some(InputEvent::CtrlKey));
    assert_eq!(EvdevGamepadInput::map_evdev_key(Key::BTN_TL), Some(InputEvent::L1));
    assert_eq!(EvdevGamepadInput::map_evdev_key(Key::BTN_TR), Some(InputEvent::R1));
    assert_eq!(EvdevGamepadInput::map_evdev_key(Key::BTN_START), Some(InputEvent::Start));
    assert_eq!(EvdevGamepadInput::map_evdev_key(Key::BTN_SELECT), Some(InputEvent::Select2));
    assert_eq!(EvdevGamepadInput::map_evdev_key(Key::BTN_MODE), Some(InputEvent::ToggleMode));
    assert_eq!(EvdevGamepadInput::map_evdev_key(Key::BTN_DPAD_UP), Some(InputEvent::Up));
}

// ---------------------------------------------------------------------------

#[test]
fn mode_names_and_toggle() {
    assert_eq!(InputMode::Hybrid.name(), "DIRECT / HYBRID");
    assert_eq!(InputMode::Gamepad.name(), "GAMEPAD ONLY");
    let mut input = PcKeyboardInput::default();
    assert_eq!(input.mode, InputMode::Hybrid);
    assert_eq!(input.toggle_mode(), InputMode::Gamepad);
    assert_eq!(input.toggle_mode(), InputMode::Hybrid);
}

fn key(code: KeyCode) -> KeyEvent {
    KeyEvent::new(code, KeyModifiers::none())
}

#[test]
fn global_keys_work_in_both_modes() {
    let mut input = PcKeyboardInput::new();
    for _ in 0..2 {
        assert_eq!(input.map_key(key(KeyCode::F(10))), Some(InputEvent::Quit));
        assert_eq!(input.map_key(key(KeyCode::Insert)), Some(InputEvent::ToggleMode));
        assert_eq!(
            input.map_key(KeyEvent::new(KeyCode::Char('Q'), KeyModifiers::control())),
            Some(InputEvent::Quit)
        );
        input.toggle_mode();
    }
}

#[test]
fn hybrid_mode_table() {
    let input = PcKeyboardInput::new();
    assert_eq!(input.map_key(key(KeyCode::F(1))), Some(InputEvent::ShiftKey));
    assert_eq!(input.map_key(key(KeyCode::F(2))), Some(InputEvent::CtrlKey));
    assert_eq!(input.map_key(key(KeyCode::PageUp)), Some(InputEvent::L1));
    assert_eq!(input.map_key(key(KeyCode::F(4))), Some(InputEvent::R1));
    assert_eq!(input.map_key(key(KeyCode::F(5))), Some(InputEvent::Start));
    assert_eq!(input.map_key(key(KeyCode::F(12))), Some(InputEvent::Select2));
    assert_eq!(input.map_key(key(KeyCode::F(7))), None);
    assert_eq!(input.map_key(key(KeyCode::Backspace)), Some(InputEvent::Passthrough(vec![0x7F])));
    assert_eq!(input.map_key(key(KeyCode::Tab)), Some(InputEvent::Passthrough(vec![b'\t'])));
    assert_eq!(input.map_key(key(KeyCode::Esc)), Some(InputEvent::Passthrough(vec![0x1B])));
    assert_eq!(input.map_key(key(KeyCode::Home)), Some(InputEvent::Passthrough(b"\x1b[H".to_vec())));
    assert_eq!(input.map_key(key(KeyCode::End)), Some(InputEvent::Passthrough(b"\x1b[F".to_vec())));
    assert_eq!(input.map_key(key(KeyCode::Delete)), Some(InputEvent::Passthrough(b"\x1b[3~".to_vec())));
    assert_eq!(input.map_key(key(KeyCode::Char('é'))), Some(InputEvent::Passthrough("é".as_bytes().to_vec())));
    assert_eq!(
        input.map_key(KeyEvent::new(KeyCode::Char('1'), KeyModifiers::control())),
        Some(InputEvent::Passthrough(vec![b'1']))
    );
    assert_eq!(
        input.map_key(KeyEvent::new(KeyCode::Char('L'), KeyModifiers::from_bits(0b11))),
        Some(InputEvent::Passthrough(vec![0x0C]))
    );
    assert_eq!(input.map_key(key(KeyCode::CapsLock)), None);
    assert_eq!(input.map_key(key(KeyCode::Char('q'))), Some(InputEvent::Passthrough(vec![b'q'])));
}

#[test]
fn gamepad_mode_table() {
    let mut input = PcKeyboardInput::new();
    input.toggle_mode();
    assert_eq!(input.map_key(key(KeyCode::Enter)), Some(InputEvent::Select));
    assert_eq!(input.map_key(key(KeyCode::Char(' '))), Some(InputEvent::Select));
    assert_eq!(input.map_key(key(KeyCode::Char('Z'))), Some(InputEvent::Select));
    assert_eq!(input.map_key(key(KeyCode::Backspace)), Some(InputEvent::Back));
    assert_eq!(input.map_key(key(KeyCode::Char('u'))), Some(InputEvent::ShiftKey));
    assert_eq!(input.map_key(key(KeyCode::Char('X'))), Some(InputEvent::ShiftKey));
    assert_eq!(input.map_key(key(KeyCode::Char('i'))), Some(InputEvent::CtrlKey));
    assert_eq!(input.map_key(key(KeyCode::F(2))), Some(InputEvent::CtrlKey));
    assert_eq!(input.map_key(key(KeyCode::Char('['))), Some(InputEvent::L1));
    assert_eq!(input.map_key(key(KeyCode::Char(']'))), Some(InputEvent::R1));
    assert_eq!(input.map_key(key(KeyCode::Tab)), Some(InputEvent::Start));
    assert_eq!(input.map_key(key(KeyCode::Esc)), Some(InputEvent::Select2));
    assert_eq!(input.map_key(key(KeyCode::Char('a'))), None);
    assert_eq!(input.map_key(key(KeyCode::Home)), None);
}

#[test]
fn modifier_bits_match_crossterm() {
    assert_eq!(KeyModifiers::none().bits, Ct::NONE.bits());
    assert_eq!(KeyModifiers::shift().bits, Ct::SHIFT.bits());
    assert_eq!(KeyModifiers::control().bits, Ct::CONTROL.bits());
    assert_eq!(KeyModifiers::alt().bits, Ct::ALT.bits());
    let both = KeyModifiers::from_bits(Ct::CONTROL.bits() | Ct::SHIFT.bits());
    assert!(both.contains(KeyModifiers::control()));
    assert!(!KeyModifiers::shift().contains(KeyModifiers::control()));
}

#[test]
fn key_codes_match_evdev() {
    let pairs = [
        (Key::KEY_ESC, evdev::Key::KEY_ESC),
        (Key::KEY_BACKSPACE, evdev::Key::KEY_BACKSPACE),
        (Key::KEY_TAB, evdev::Key::KEY_TAB),
        (Key::KEY_ENTER, evdev::Key::KEY_ENTER),
        (Key::KEY_F, evdev::Key::KEY_F),
        (Key::KEY_F1, evdev::Key::KEY_F1),
        (Key::KEY_F2, evdev::Key::KEY_F2),
        (Key::KEY_F3, evdev::Key::KEY_F3),
        (Key::KEY_F4, evdev::Key::KEY_F4),
        (Key::KEY_UP, evdev::Key::KEY_UP),
        (Key::KEY_PAGEUP, evdev::Key::KEY_PAGEUP),
        (Key::KEY_LEFT, evdev::Key::KEY_LEFT),
        (Key::KEY_RIGHT, evdev::Key::KEY_RIGHT),
        (Key::KEY_DOWN, evdev::Key::KEY_DOWN),
        (Key::KEY_PAGEDOWN, evdev::Key::KEY_PAGEDOWN),
        (Key::KEY_HOMEPAGE, evdev::Key::KEY_HOMEPAGE),
        (Key::BTN_0, evdev::Key::BTN_0),
        (Key::BTN_1, evdev::Key::BTN_1),
        (Key::BTN_2, evdev::Key::BTN_2),
        (Key::BTN_3, evdev::Key::BTN_3),
        (Key::BTN_SOUTH, evdev::Key::BTN_SOUTH),
        (Key::BTN_EAST, evdev::Key::BTN_EAST),
        (Key::BTN_NORTH, evdev::Key::BTN_NORTH),
        (Key::BTN_WEST, evdev::Key::BTN_WEST),
        (Key::BTN_TL, evdev::Key::BTN_TL),
        (Key::BTN_TR, evdev::Key::BTN_TR),
        (Key::BTN_TL2, evdev::Key::BTN_TL2),
        (Key::BTN_TR2, evdev::Key::BTN_TR2),
        (Key::BTN_SELECT, evdev::Key::BTN_SELECT),
        (Key::BTN_START, evdev::Key::BTN_START),
        (Key::BTN_MODE, evdev::Key::BTN_MODE),
        (Key::BTN_DPAD_UP, evdev::Key::BTN_DPAD_UP),
        (Key::BTN_DPAD_DOWN, evdev::Key::BTN_DPAD_DOWN),
        (Key::BTN_DPAD_LEFT, evdev::Key::BTN_DPAD_LEFT),
        (Key::BTN_DPAD_RIGHT, evdev::Key::BTN_DPAD_RIGHT),
    ];
    for (ours, theirs) in pairs {
        assert_eq!(ours.code(), theirs.code());
        assert_eq!(Key::new(theirs.code()), ours);
    }
    assert_eq!(Key::new(0x2ff), Key::Other(0x2ff));
}

#[test]
fn evdev_keys_by_code() {
    assert_eq!(EvdevGamepadInput::map_evdev_key(Key::KEY_ENTER), Some(InputEvent::Select));
    assert_eq!(EvdevGamepadInput::map_evdev_key(Key::KEY_PAGEDOWN), Some(InputEvent::R1));
    assert_eq!(EvdevGamepadInput::map_evdev_key(Key::KEY_F), Some(InputEvent::ToggleMode));
    assert_eq!(EvdevGamepadInput::map_evdev_key(Key::BTN_TL2), Some(InputEvent::L1));
    // an unnamed spelling of a named code maps like the named key
    assert_eq!(EvdevGamepadInput::map_evdev_key(Key::Other(103)), Some(InputEvent::Up));
    assert_eq!(EvdevGamepadInput::map_evdev_key(Key::Other(0x2ff)), None);
}

#[test]
fn first_press_skips_releases_and_unmapped() {
    let events = vec![
        RawInputEvent { key: None, value: 1 },
        RawInputEvent { key: Some(Key::BTN_SOUTH), value: 0 },
        RawInputEvent { key: Some(Key::Other(0x2ff)), value: 1 },
        RawInputEvent { key: Some(Key::BTN_EAST), value: 1 },
        RawInputEvent { key: Some(Key::BTN_SOUTH), value: 1 },
    ];
    assert_eq!(EvdevGamepadInput::first_press_event(&events), Some(InputEvent::Back));
    assert_eq!(EvdevGamepadInput::first_press_event(&events[..3].to_vec()), None);
    assert_eq!(EvdevGamepadInput::first_press_event(&vec![]), None);
}

#[test]
fn gamepad_names() {
    assert!(EvdevGamepadInput::is_gamepad_name("RetroGame Joypad"));
    assert!(EvdevGamepadInput::is_gamepad_name("rk_gpio_keys"));
    assert!(EvdevGamepadInput::is_gamepad_name("ODROID-GO Advance Gamepad"));
    assert!(EvdevGamepadInput::is_gamepad_name("USB GAMEPAD"));
    assert!(!EvdevGamepadInput::is_gamepad_name("AT Translated Set 2 keyboard"));
    assert!(!EvdevGamepadInput::is_gamepad_name(""));
    assert!(EvdevGamepadInput::is_gamepad_lowercase_name("joypad"));
    assert!(!EvdevGamepadInput::is_gamepad_lowercase_name("JOYPAD"));
}
