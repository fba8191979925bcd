use whisper_input::app::{AppStatus, WorkerError, WorkerEvent};
use whisper_input::tray::{icon_is_template, render_wave_rgba, wave_color, TrayState, WaveColor};

#[test]
fn status_changes_update_texts_and_restart_animation() {
    let mut tray = TrayState::new();
    assert_eq!(tray.status_item_text, "Status: Initializing");
    assert!(tray.advance_animation());
    assert_eq!(tray.animation_frame, 1);
    assert!(tray.handle_worker_event(&WorkerEvent::Status(AppStatus::Listening)));
    assert_eq!(tray.animation_frame, 0);
    assert_eq!(tray.status_text, "Status: Listening");
    assert_eq!(tray.toggle_text, "Stop Listening");
    for expected in [1, 2, 3, 0] {
        assert!(tray.advance_animation());
        assert_eq!(tray.animation_frame, expected);
    }
    tray.handle_worker_event(&WorkerEvent::Status(AppStatus::Idle));
    assert!(!tray.advance_animation());
    assert_eq!(tray.toggle_text, "Start Listening");
}

#[test]
fn errors_transcripts_and_capture_prompts() {
    let mut tray = TrayState::new();
    tray.handle_worker_event(&WorkerEvent::Error(WorkerError::Failed(String::from("boom"))));
    assert_eq!(tray.status, AppStatus::Error);
    assert_eq!(tray.status_text, "Error: boom");
    assert_eq!(tray.toggle_text, "Retry Start Listening");
    assert!(!tray.handle_worker_event(&WorkerEvent::TranscriptReady(1234)));
    assert_eq!(tray.status_item_text, "Transcript ready (1234 chars)");
    tray.handle_worker_event(&WorkerEvent::HotkeyCaptureStarted);
    assert_eq!(tray.status_item_text, "Status: Press a hotkey combo (Escape cancels)");
    tray.handle_worker_event(&WorkerEvent::HotkeyCaptureCancelled);
    assert_eq!(tray.status_item_text, "Transcript ready (1234 chars)");
    tray.handle_worker_event(&WorkerEvent::TranscriptReady(0));
    assert_eq!(tray.status_text, "Transcript ready (0 chars)");
}

#[test]
fn icon_colors_and_pixels() {
    assert_eq!(wave_color(AppStatus::Listening), WaveColor::red());
    assert_eq!(wave_color(AppStatus::Idle), WaveColor::black());
    assert!(!icon_is_template(AppStatus::Listening));
    assert!(icon_is_template(AppStatus::Processing));
    let rgba = render_wave_rgba([2, 4, 7, 4, 2], WaveColor::black());
    let opaque: Vec<&[u8]> = rgba.chunks_exact(4).filter(|p| p[3] != 0).collect();
    assert!(!opaque.is_empty());
    assert!(opaque.iter().all(|p| *p == [0, 0, 0, 255]));
    // Bar 0 starts at x = 2: the pixel left of it stays clear; its 2 x 2 bar
    // is centred at y = 8..10.
    let at = |x: usize, y: usize| rgba[(y * 18 + x) * 4 + 3];
    assert_eq!(at(1, 8), 0);
    assert_eq!(at(2, 8), 255);
    assert_eq!(at(3, 9), 255);
    assert_eq!(at(2, 7), 0);
    // The tallest idle bar (7 px, clamped range 2..=14) spans y = 5..12 at x = 8.
    assert_eq!(at(8, 5), 255);
    assert_eq!(at(8, 11), 255);
    assert_eq!(at(8, 12), 0);
}

#[test]
fn waveform_bars_fill_whole_rectangles() {
    let color = WaveColor::red();
    let heights = [1, 4, 20, 7, 2];
    let rgba = render_wave_rgba(heights, color);
    assert_eq!(rgba.len(), 1296);
    for py in 0..18usize {
        for px in 0..18usize {
            let covered = (0..5usize).any(|i| {
                let h = heights[i].clamp(2, 14) as usize;
                let top = (18 - h) / 2;
                (px == 2 + 3 * i || px == 3 + 3 * i) && top <= py && py < top + h
            });
            let at = 4 * (18 * py + px);
            let expected = if covered { [color.r, color.g, color.b, color.a] } else { [0, 0, 0, 0] };
            assert_eq!(rgba[at..at + 4], expected, "pixel ({px}, {py})");
        }
    }
}
