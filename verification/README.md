# oholeo

Configuration logic for the OHoleO Hall-effect keyboard, verified with Verus.

- `src/keyboard.rs` - the 64 keys, their default on-screen layout, and the
  two index maps between screen order and the controller's scan order.
- `src/keycode.rs`, `src/lighting.rs` - key codes and lighting modes, with
  their numbers and names.
- `src/report.rs` - the HID reports: reading input reports into the board
  state, and building the frames that write settings back.
- `src/edit.rs`, `src/ui.rs` - what the settings pages do to the keys.
- `src/text.rs` - string comparison, number and hex parsing, labels.
- `app/` - the browser front end (Leptos, WebHID), which leaves every
  decision to the library.
