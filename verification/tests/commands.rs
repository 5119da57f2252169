use voicepicker::clipboard::simulate_cmd_c;
use voicepicker::commands::{audio_to_play, PlayCommand, TtsResponse, TtsStatus};
use voicepicker::settings::{default_global_hotkey, settings_path, Theme, DEFAULT_AUTO_PLAY};
use voicepicker::tts::engine::TtsError;

#[test]
fn command_statuses() {
    assert_eq!(PlayCommand::Play.resulting_status(), TtsStatus::Playing);
    assert_eq!(PlayCommand::Pause.resulting_status(), TtsStatus::Paused);
    assert_eq!(PlayCommand::Resume.resulting_status(), TtsStatus::Playing);
    assert_eq!(PlayCommand::Stop.resulting_status(), TtsStatus::Idle);
}

#[test]
fn synthesis_answers() {
    assert_eq!(
        TtsResponse::from_synthesis(Ok(vec![9, 8])),
        TtsResponse { success: true, audio_data: Some(vec![9, 8]), error: None }
    );
    assert_eq!(
        TtsResponse::from_synthesis(Err(TtsError::HttpError("超时".to_string()))),
        TtsResponse {
            success: false,
            audio_data: None,
            error: Some("HTTP 请求失败：超时".to_string())
        }
    );
}

#[test]
fn play_needs_audio() {
    assert_eq!(audio_to_play(&None), Err("No audio data".to_string()));
    assert_eq!(audio_to_play(&Some(vec![4, 5])), Ok(vec![4, 5]));
}

#[test]
fn copy_keystroke_command() {
    let c = simulate_cmd_c();
    assert_eq!(c.program, "osascript");
    assert_eq!(
        c.args,
        vec![
            "-e".to_string(),
            r#"tell application "System Events" to keystroke "c" using command down"#.to_string()
        ]
    );
}

#[test]
fn theme_names() {
    assert_eq!(Theme::default_theme(), Theme::System);
    assert_eq!(Theme::Light.name(), "light");
    assert_eq!(Theme::Dark.name(), "dark");
    assert_eq!(Theme::System.name(), "system");
}

#[test]
fn settings_file_path() {
    assert_eq!(
        settings_path("/Users/a/Library/Application Support"),
        "/Users/a/Library/Application Support/VoicePicker/settings.json"
    );
    assert_eq!(settings_path("."), "./VoicePicker/settings.json");
}

#[test]
fn settings_defaults() {
    assert_eq!(default_global_hotkey(), "Cmd+Option+X");
    assert!(DEFAULT_AUTO_PLAY);
}
