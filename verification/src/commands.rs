//! The application's shared status and the decisions of its commands: which
//! status a playback command leaves, what a synthesis request answers, and which
//! audio a play command plays.

use crate::tts::engine::{error_message, TtsError};
use vstd::prelude::*;

verus! {

/// The status of speech output, shown to the user.
#[derive(Debug, Clone, PartialEq, Eq)]
pub enum TtsStatus {
    Idle,
    Playing,
    Paused,
    Error(String),
}

/// The answer to a synthesis request.
#[derive(Debug, Clone, PartialEq, Eq)]
pub struct TtsResponse {
    pub success: bool,
    pub audio_data: Option<Vec<u8>>,
    pub error: Option<String>,
}

/// A playback command.
#[derive(Debug, Clone, Copy, PartialEq, Eq, Structural)]
pub enum PlayCommand {
    Play,
    Pause,
    Resume,
    Stop,
}

impl PlayCommand {
    /// The status that the command leaves: playing after play and resume, paused
    /// after pause, idle after stop.
    pub fn resulting_status(&self) -> (s: TtsStatus)
        ensures
            match self {
                PlayCommand::Play => s is Playing,
                PlayCommand::Pause => s is Paused,
                PlayCommand::Resume => s is Playing,
                PlayCommand::Stop => s is Idle,
            },
    {
        match self {
            PlayCommand::Play => TtsStatus::Playing,
            PlayCommand::Pause => TtsStatus::Paused,
            PlayCommand::Resume => TtsStatus::Playing,
            PlayCommand::Stop => TtsStatus::Idle,
        }
    }
}

impl TtsResponse {
    /// The answer to a synthesis request that ended with `result`: on success the
    /// audio and no error, on failure no audio and the error's message.
    pub fn from_synthesis(result: Result<Vec<u8>, TtsError>) -> (r: TtsResponse)
        ensures
            match result {
                Ok(audio) => {
                    &&& r.success
                    &&& r.audio_data matches Some(a) && a@ == audio@
                    &&& r.error is None
                },
                Err(e) => {
                    &&& !r.success
                    &&& r.audio_data is None
                    &&& r.error matches Some(m) && m@ == error_message(e@)
                },
            },
    {
        match result {
            Ok(audio) => TtsResponse { success: true, audio_data: Some(audio), error: None },
            Err(e) => TtsResponse { success: false, audio_data: None, error: Some(e.message()) },
        }
    }
}

/// The audio a play command plays: the audio held, or the error `No audio data`
/// where there is none.
pub fn audio_to_play(current: &Option<Vec<u8>>) -> (r: Result<Vec<u8>, String>)
    ensures
        match current {
            Some(audio) => r matches Ok(a) && a@ == audio@,
            None => r matches Err(m) && m@ == "No audio data"@,
        },
{
    match current {
        Some(audio) => Ok(audio.clone()),
        None => Err(String::from_str("No audio data")),
    }
}

} // verus!
