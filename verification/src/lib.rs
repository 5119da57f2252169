//! The decision logic of a text-to-speech reader: what the hotkey flow does with
//! a selection, how the playback manager moves between its states, how replies of
//! the local speech service are read, and the small text and path helpers these use.

pub mod text;
pub mod audio;
pub mod tts;
pub mod hotkey;
pub mod commands;
pub mod clipboard;
pub mod settings;
