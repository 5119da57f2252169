//! Playback: the state machine that tracks what the audio sink is doing.

pub mod manager;
