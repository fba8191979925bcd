use whisper_input::app::{next_action, AppStatus, SessionState, ToggleAction};
use whisper_input::tray::{frame_count, render_wave_rgba, wave_patterns, WaveColor, WAVE_ICON_SIZE};

#[test]
fn idle_toggle_starts_recording() {
    assert_eq!(next_action(SessionState::Idle), ToggleAction::Start);
}

#[test]
fn recording_toggle_stops_and_processes() {
    assert_eq!(next_action(SessionState::Recording), ToggleAction::StopAndProcess);
}

#[test]
fn status_is_copyable() {
    let status = AppStatus::Listening;
    assert_eq!(status, AppStatus::Listening);
}

#[test]
fn tray_icon_animations_have_expected_frame_counts() {
    assert_eq!(frame_count(AppStatus::Initializing), 3);
    assert_eq!(frame_count(AppStatus::Idle), 1);
    assert_eq!(frame_count(AppStatus::Listening), 4);
    assert_eq!(frame_count(AppStatus::Processing), 5);
    assert_eq!(frame_count(AppStatus::Error), 1);
    for status in [
        AppStatus::Initializing,
        AppStatus::Idle,
        AppStatus::Listening,
        AppStatus::Processing,
        AppStatus::Error,
    ] {
        assert_eq!(wave_patterns(status).len(), frame_count(status));
    }
}

#[test]
fn listening_waveform_renders_red_pixels() {
    let rgba = render_wave_rgba([3, 7, 11, 7, 3], WaveColor::red());
    let first_opaque_pixel = rgba
        .chunks_exact(4)
        .find(|pixel| pixel[3] != 0)
        .expect("waveform should contain opaque pixels");

    assert_eq!(rgba.len(), (WAVE_ICON_SIZE * WAVE_ICON_SIZE * 4) as usize);
    assert_eq!(first_opaque_pixel, [255, 59, 48, 255]);
}
