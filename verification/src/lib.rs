//! A verified model of the configuration logic of a Hall-effect keyboard:
//! the key matrix, the HID reports exchanged with the board, and the edits
//! that the settings pages make to the keys.

pub mod keyboard;
pub mod keycode;
pub mod lighting;
pub mod state;
pub mod report;
pub mod text;
pub mod edit;
pub mod ui;
