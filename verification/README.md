# cyberdeck_kb

A terminal-native virtual keyboard for handheld consoles: gamepad buttons or
a PC keyboard drive an on-screen QWERTY grid whose keys are typed into a real
shell running in a pseudo-terminal.

- `src/` is the verified library (Verus):
  - `keyboard.rs`: the three layers, their grids, the cursor, one-shot Shift,
    sticky Ctrl, the bytes each key sends, hit-testing of taps;
  - `input.rs`: PC key and gamepad button mappings to input events;
  - `session.rs`: what each input event does, screen sharing between shell
    and keyboard, mouse clicks;
  - `render.rs`: the contents of a frame as styled runs per screen row;
  - `shell.rs`: splitting the shell command line;
  - `launcher.rs`: the launcher daemon's command line and trigger button;
  - `laws.rs`: properties spanning several operations;
  - `text.rs`: character, UTF-8 and string helpers.
- `app/` is the program around it: terminal raw mode and drawing, the
  pseudo-terminal and its reader thread, the gamepad device, the configuration
  file, and the launcher daemon (run when the program is named
  `deck-launcher`).
