use voicepicker::hotkey::{ShortcutAction, ShortcutEvent, ShortcutFlow, ShortcutStep};
use voicepicker::tts::engine::TtsError;

fn failure(message: &str) -> ShortcutAction {
    ShortcutAction::Fail { message: message.to_string(), status: format!("错误：{}", message) }
}

#[test]
fn empty_selection_is_refused() {
    let mut f = ShortcutFlow::new();
    assert_eq!(f.advance(ShortcutEvent::TextSelected(String::new())), failure("未选中文本"));
    assert_eq!(f.step(), ShortcutStep::Done);
}

#[test]
fn blank_selection_is_refused() {
    let mut f = ShortcutFlow::new();
    assert_eq!(
        f.advance(ShortcutEvent::TextSelected(" \n\t\u{3000}".to_string())),
        failure("选中的文本为空")
    );
    assert_eq!(f.step(), ShortcutStep::Done);
}

#[test]
fn full_flow() {
    let mut f = ShortcutFlow::new();
    assert_eq!(f.step(), ShortcutStep::AwaitingText);
    assert_eq!(
        f.advance(ShortcutEvent::TextSelected(" 你好 ".to_string())),
        ShortcutAction::Synthesize { text: " 你好 ".to_string(), status: "正在生成语音...".to_string() }
    );
    assert_eq!(f.step(), ShortcutStep::Synthesizing);
    assert_eq!(
        f.advance(ShortcutEvent::Synthesized(Ok(vec![1, 2, 3]))),
        ShortcutAction::Play { audio: vec![1, 2, 3], status: "正在播放...".to_string() }
    );
    assert_eq!(f.step(), ShortcutStep::Playing);
    assert_eq!(
        f.advance(ShortcutEvent::PlaybackEnded(Ok(()))),
        ShortcutAction::Finish { status: "播放完成".to_string() }
    );
    assert_eq!(f.step(), ShortcutStep::Done);
}

#[test]
fn synthesis_failures() {
    let mut f = ShortcutFlow::new();
    f.advance(ShortcutEvent::TextSelected("hi".to_string()));
    assert_eq!(
        f.advance(ShortcutEvent::Synthesized(Err(TtsError::ServiceNotRunning))),
        failure("TTS 生成失败：Python 服务未启动")
    );
    let mut g = ShortcutFlow::new();
    g.advance(ShortcutEvent::TextSelected("hi".to_string()));
    assert_eq!(g.advance(ShortcutEvent::SynthesisPanicked), failure("TTS 线程恐慌"));
    assert_eq!(g.step(), ShortcutStep::Done);
}

#[test]
fn playback_failure() {
    let mut f = ShortcutFlow::new();
    f.advance(ShortcutEvent::TextSelected("hi".to_string()));
    f.advance(ShortcutEvent::Synthesized(Ok(vec![0])));
    assert_eq!(
        f.advance(ShortcutEvent::PlaybackEnded(Err("解码音频失败：x".to_string()))),
        failure("播放失败：解码音频失败：x")
    );
}
