//! What happens when the reading hotkey is pressed: the selected text is checked,
//! spoken by the service and played. The selection, the synthesis and the playback
//! are done by the caller; `ShortcutFlow` decides, after each of them, what comes
//! next and what status is shown.

use crate::text::{is_blank, trims_to_empty};
use crate::tts::engine::{error_message, TtsError};
use vstd::prelude::*;

verus! {

/// Where the hotkey flow stands.
#[derive(Debug, Clone, Copy, PartialEq, Eq, Structural)]
pub enum ShortcutStep {
    /// Waiting for the selected text.
    AwaitingText,
    /// Waiting for the synthesized audio.
    Synthesizing,
    /// Waiting for the playback to end.
    Playing,
    /// Nothing more to do.
    Done,
}

/// What the caller reports to the flow.
#[derive(Debug, PartialEq, Eq)]
pub enum ShortcutEvent {
    /// The selection was read; this is its text.
    TextSelected(String),
    /// The synthesis ended with this result.
    Synthesized(Result<Vec<u8>, TtsError>),
    /// The synthesis thread panicked.
    SynthesisPanicked,
    /// The playback ended with this result.
    PlaybackEnded(Result<(), String>),
}

/// What the caller must do next.
#[derive(Debug, PartialEq, Eq)]
pub enum ShortcutAction {
    /// Show `status`, then synthesize `text` with the current speed and volume.
    Synthesize { text: String, status: String },
    /// Show `status`, then play `audio`.
    Play { audio: Vec<u8>, status: String },
    /// Show `status`; the flow is done.
    Finish { status: String },
    /// Log `message`, show `status` (the message behind `错误：`); the flow is done.
    Fail { message: String, status: String },
}

/// Whether `event` is what the flow waits for at `step`.
pub open spec fn event_expected(step: ShortcutStep, event: ShortcutEvent) -> bool {
    match step {
        ShortcutStep::AwaitingText => event is TextSelected,
        ShortcutStep::Synthesizing => event is Synthesized || event is SynthesisPanicked,
        ShortcutStep::Playing => event is PlaybackEnded,
        ShortcutStep::Done => false,
    }
}

/// The status shown for a failure with `message`.
pub open spec fn failure_status(message: Seq<char>) -> Seq<char> {
    "错误："@ + message
}

/// Whether `action` is a failure with `message` (and the status that goes with it).
pub open spec fn fails_with(action: ShortcutAction, message: Seq<char>) -> bool {
    action matches ShortcutAction::Fail { message: m, status } && m@ == message && status@
        == failure_status(message)
}

/// The hotkey flow.
pub struct ShortcutFlow {
    step: ShortcutStep,
}

impl View for ShortcutFlow {
    type V = ShortcutStep;

    closed spec fn view(&self) -> ShortcutStep {
        self.step
    }
}

fn fail(message: String) -> (a: ShortcutAction)
    ensures
        fails_with(a, message@),
{
    let status = String::from_str("错误：").concat(message.as_str());
    ShortcutAction::Fail { message, status }
}

impl ShortcutFlow {
    /// A flow that waits for the selected text.
    pub fn new() -> (f: Self)
        ensures
            f@ == ShortcutStep::AwaitingText,
    {
        ShortcutFlow { step: ShortcutStep::AwaitingText }
    }

    /// Where the flow stands.
    pub fn step(&self) -> (s: ShortcutStep)
        ensures
            s == self@,
    {
        self.step
    }

    /// Moves the flow on by `event` and says what to do next:
    /// - an empty selection fails with `未选中文本`, one of white space only with
    ///   `选中的文本为空`; other text is synthesized, under the status `正在生成语音...`;
    /// - synthesized audio is played, under the status `正在播放...`; a failed synthesis
    ///   fails with `TTS 生成失败：` and the error's message, a panicked one with
    ///   `TTS 线程恐慌`;
    /// - a finished playback ends with the status `播放完成`, a failed one fails with
    ///   `播放失败：` and its message.
    pub fn advance(&mut self, event: ShortcutEvent) -> (action: ShortcutAction)
        requires
            event_expected(old(self)@, event),
        ensures
            match event {
                ShortcutEvent::TextSelected(text) => if text@.len() == 0 {
                    fails_with(action, "未选中文本"@) && final(self)@ == ShortcutStep::Done
                } else if is_blank(text@) {
                    fails_with(action, "选中的文本为空"@) && final(self)@ == ShortcutStep::Done
                } else {
                    &&& action matches ShortcutAction::Synthesize { text: t, status }
                    &&& t@ == text@
                    &&& status@ == "正在生成语音..."@
                    &&& final(self)@ == ShortcutStep::Synthesizing
                },
                ShortcutEvent::Synthesized(result) => match result {
                    Ok(audio) => {
                        &&& action matches ShortcutAction::Play { audio: a, status }
                        &&& a@ == audio@
                        &&& status@ == "正在播放..."@
                        &&& final(self)@ == ShortcutStep::Playing
                    },
                    Err(e) => fails_with(action, "TTS 生成失败："@ + error_message(e@))
                        && final(self)@ == ShortcutStep::Done,
                },
                ShortcutEvent::SynthesisPanicked => fails_with(action, "TTS 线程恐慌"@)
                    && final(self)@ == ShortcutStep::Done,
                ShortcutEvent::PlaybackEnded(result) => match result {
                    Ok(()) => action matches ShortcutAction::Finish { status } && status@
                        == "播放完成"@ && final(self)@ == ShortcutStep::Done,
                    Err(msg) => fails_with(action, "播放失败："@ + msg@) && final(self)@
                        == ShortcutStep::Done,
                },
            },
    {
        match event {
            ShortcutEvent::TextSelected(text) => {
                if text.as_str().unicode_len() == 0 {
                    self.step = ShortcutStep::Done;
                    fail(String::from_str("未选中文本"))
                } else if trims_to_empty(text.as_str()) {
                    self.step = ShortcutStep::Done;
                    fail(String::from_str("选中的文本为空"))
                } else {
                    self.step = ShortcutStep::Synthesizing;
                    ShortcutAction::Synthesize { text, status: String::from_str("正在生成语音...") }
                }
            },
            ShortcutEvent::Synthesized(result) => match result {
                Ok(audio) => {
                    self.step = ShortcutStep::Playing;
                    ShortcutAction::Play { audio, status: String::from_str("正在播放...") }
                },
                Err(e) => {
                    self.step = ShortcutStep::Done;
                    let message = String::from_str("TTS 生成失败：").concat(e.message().as_str());
                    fail(message)
                },
            },
            ShortcutEvent::SynthesisPanicked => {
                self.step = ShortcutStep::Done;
                fail(String::from_str("TTS 线程恐慌"))
            },
            ShortcutEvent::PlaybackEnded(result) => match result {
                Ok(()) => {
                    self.step = ShortcutStep::Done;
                    ShortcutAction::Finish { status: String::from_str("播放完成") }
                },
                Err(msg) => {
                    self.step = ShortcutStep::Done;
                    fail(String::from_str("播放失败：").concat(msg.as_str()))
                },
            },
        }
    }
}

} // verus!
