use voicepicker::audio::manager::{
    estimate_duration_us, get_current_position, get_elapsed_time, get_progress, get_state, pause,
    play, resume, seek, sink_action_before_play, stop, AudioManagerState, PlaybackProgress,
    PlaybackState, SinkAction, BYTES_PER_SECOND,
};

fn one_second_of_audio() -> Vec<u8> {
    vec![0u8; BYTES_PER_SECOND as usize]
}

#[test]
fn new_manager_is_idle_without_progress() {
    let m = AudioManagerState::new();
    assert_eq!(get_state(&m), PlaybackState::Idle);
    assert_eq!(get_progress(&m, 1_000), None);
    assert_eq!(get_current_position(&m, 1_000), 0);
    assert_eq!(sink_action_before_play(&m), SinkAction::Keep);
}

#[test]
fn duration_estimate_values() {
    assert_eq!(estimate_duration_us(176_400), 1_000_000);
    assert_eq!(estimate_duration_us(0), 0);
    assert_eq!(estimate_duration_us(1), 5);
    assert_eq!(estimate_duration_us(88_200), 500_000);
}

#[test]
fn play_then_progress() {
    let mut m = AudioManagerState::new();
    play(&mut m, one_second_of_audio(), 10_000_000);
    assert_eq!(get_state(&m), PlaybackState::Playing);
    assert_eq!(get_elapsed_time(&m, 10_500_000), 500_000);
    assert_eq!(
        get_progress(&m, 10_500_000),
        Some(PlaybackProgress { current_us: 500_000, total_us: 1_000_000, percent_hundredths: 5_000 })
    );
    assert_eq!(sink_action_before_play(&m), SinkAction::Stop);
}

#[test]
fn progress_share_is_capped() {
    let mut m = AudioManagerState::new();
    play(&mut m, one_second_of_audio(), 0);
    let p = get_progress(&m, 5_000_000).unwrap();
    assert_eq!(p.current_us, 5_000_000);
    assert_eq!(p.percent_hundredths, 10_000);
}

#[test]
fn clock_before_start_counts_as_zero() {
    let mut m = AudioManagerState::new();
    play(&mut m, one_second_of_audio(), 1_000);
    assert_eq!(get_elapsed_time(&m, 10), 0);
    assert_eq!(get_current_position(&m, 10), 0);
}

#[test]
fn pause_freezes_position_and_resume_continues() {
    let mut m = AudioManagerState::new();
    play(&mut m, one_second_of_audio(), 0);
    assert_eq!(pause(&mut m, 300_000), SinkAction::Pause);
    assert_eq!(get_state(&m), PlaybackState::Paused);
    assert_eq!(get_current_position(&m, 300_000), 300_000);
    assert_eq!(get_current_position(&m, 9_000_000), 300_000);
    assert_eq!(resume(&mut m, 2_000_000), SinkAction::Resume);
    assert_eq!(get_state(&m), PlaybackState::Playing);
    assert_eq!(get_current_position(&m, 2_000_000), 300_000);
    assert_eq!(get_current_position(&m, 2_250_000), 550_000);
}

#[test]
fn second_pause_saves_whole_position() {
    let mut m = AudioManagerState::new();
    play(&mut m, one_second_of_audio(), 0);
    pause(&mut m, 300_000);
    resume(&mut m, 1_000_000);
    pause(&mut m, 1_200_000);
    assert_eq!(get_current_position(&m, 1_200_000), 500_000);
    assert_eq!(get_current_position(&m, 9_000_000), 500_000);
}

#[test]
fn pausing_twice_is_pausing_once() {
    let mut m = AudioManagerState::new();
    play(&mut m, one_second_of_audio(), 0);
    pause(&mut m, 300_000);
    assert_eq!(pause(&mut m, 700_000), SinkAction::Pause);
    assert_eq!(get_state(&m), PlaybackState::Paused);
    assert_eq!(get_current_position(&m, 800_000), 300_000);
}

#[test]
fn stop_clears_position_keeps_total() {
    let mut m = AudioManagerState::new();
    play(&mut m, one_second_of_audio(), 0);
    pause(&mut m, 400_000);
    assert_eq!(stop(&mut m), SinkAction::Stop);
    assert_eq!(get_state(&m), PlaybackState::Stopped);
    assert_eq!(get_progress(&m, 700_000), None);
    assert_eq!(get_current_position(&m, 700_000), 0);
    assert_eq!(stop(&mut m), SinkAction::Keep);
    assert_eq!(get_state(&m), PlaybackState::Stopped);
}

#[test]
fn pause_and_resume_without_sink_do_nothing() {
    let mut m = AudioManagerState::new();
    assert_eq!(pause(&mut m, 5), SinkAction::Keep);
    assert_eq!(get_state(&m), PlaybackState::Idle);
    assert_eq!(resume(&mut m, 5), SinkAction::Keep);
    assert_eq!(get_state(&m), PlaybackState::Idle);
    play(&mut m, one_second_of_audio(), 0);
    stop(&mut m);
    assert_eq!(pause(&mut m, 5), SinkAction::Keep);
    assert_eq!(get_state(&m), PlaybackState::Stopped);
}

#[test]
fn empty_audio_has_no_progress() {
    let mut m = AudioManagerState::new();
    play(&mut m, Vec::new(), 0);
    assert_eq!(get_state(&m), PlaybackState::Playing);
    assert_eq!(get_progress(&m, 100), None);
}

#[test]
fn play_after_pause_starts_from_zero() {
    let mut m = AudioManagerState::new();
    play(&mut m, one_second_of_audio(), 0);
    pause(&mut m, 250_000);
    play(&mut m, one_second_of_audio(), 1_000_000);
    assert_eq!(get_current_position(&m, 1_000_000), 0);
    assert_eq!(
        get_progress(&m, 1_100_000),
        Some(PlaybackProgress { current_us: 100_000, total_us: 1_000_000, percent_hundredths: 1_000 })
    );
}

#[test]
fn seek_records_position() {
    let mut m = AudioManagerState::new();
    assert_eq!(seek(&mut m, 400_000, 0), Ok(()));
    assert_eq!(get_state(&m), PlaybackState::Idle);
    assert_eq!(get_current_position(&m, 0), 0);
    play(&mut m, one_second_of_audio(), 0);
    assert_eq!(seek(&mut m, 600_000, 100_000), Ok(()));
    assert_eq!(get_state(&m), PlaybackState::Playing);
    assert_eq!(get_current_position(&m, 100_000), 600_000);
    assert_eq!(get_current_position(&m, 300_000), 800_000);
    pause(&mut m, 300_000);
    assert_eq!(seek(&mut m, 50_000, 900_000), Ok(()));
    assert_eq!(get_state(&m), PlaybackState::Paused);
    assert_eq!(get_current_position(&m, 2_000_000), 50_000);
}
