//! Verified core of the whisper_input voice-input utility.

pub mod app;
pub mod config;
pub mod hotkey;
pub mod hotkey_dialog;
pub mod keys;
pub mod model;
pub mod settings_window;
pub mod sound;
pub mod startup;
pub mod text;
pub mod tool;
pub mod transcribe;
pub mod tray;
