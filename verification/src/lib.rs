//! Keypad macros: the configuration of the keypad daemon and its configurator,
//! the parsing of the keypad's serial events, the hotkey logic, the built-in
//! key bindings and the tray icon.
pub mod binding_laws;
pub mod configurator;
pub mod hotkey;
pub mod icon;
pub mod key_actions;
pub mod laws;
pub mod linux;
pub mod parsing_laws;
pub mod serial;
pub mod text;
pub mod types;
pub mod windows;
