use handy_keys::Key;
use whisper_input::hotkey::{CommandKeySide, HotkeyBinding};
use whisper_input::keys::{Hotkey, CMD, SHIFT};
use whisper_input::model::ModelSize;
use whisper_input::settings_window::{
    controls_view, model_size_from_popup_index, model_size_title, popup_index_for_model_size, CaptureStage,
    SettingsWindow, CAPTURE_HINT_TEXT,
};

#[test]
fn model_size_popup_mapping_round_trips() {
    for model_size in [ModelSize::Tiny, ModelSize::Base, ModelSize::Small, ModelSize::Medium, ModelSize::Large] {
        let index = popup_index_for_model_size(model_size);
        assert_eq!(model_size_from_popup_index(index), Some(model_size));
    }
    assert_eq!(model_size_from_popup_index(99), None);
}

#[test]
fn captured_hotkey_is_applied_immediately_to_state() {
    let mut settings_window =
        SettingsWindow::new(ModelSize::Base, &HotkeyBinding::CommandTap(CommandKeySide::Right));
    let captured = Hotkey::new(CMD | SHIFT, Some(Key::Space)).expect("valid hotkey");

    settings_window.show_captured_hotkey(captured);

    assert_eq!(settings_window.state.hotkey_binding, HotkeyBinding::KeyCombo(captured));
    assert_eq!(settings_window.state.capture_stage, CaptureStage::Idle);
    assert_eq!(settings_window.state.status_text, None);
}

#[test]
fn begin_hotkey_capture_shows_inline_status() {
    let mut settings_window =
        SettingsWindow::new(ModelSize::Base, &HotkeyBinding::CommandTap(CommandKeySide::Right));

    settings_window.begin_hotkey_capture();

    assert_eq!(settings_window.state.capture_stage, CaptureStage::Capturing);
    assert_eq!(settings_window.state.status_text.as_deref(), Some(CAPTURE_HINT_TEXT));
}

#[test]
fn controls_follow_capture_stage_and_model() {
    let mut w = SettingsWindow::new(ModelSize::Medium, &HotkeyBinding::CommandTap(CommandKeySide::Left));
    let idle = controls_view(&w.state);
    assert_eq!(idle.hotkey_text, "Left Command Tap");
    assert!(idle.buttons_enabled);
    assert_eq!(idle.capture_title, "Capture New Combo");
    assert_eq!(idle.selected_index, 3);
    assert_eq!(idle.status_text, None);

    w.begin_hotkey_capture();
    let capturing = controls_view(&w.state);
    assert_eq!(capturing.hotkey_text, "Listening...");
    assert!(!capturing.buttons_enabled);
    assert_eq!(capturing.capture_title, "Listening...");

    // A model change during capture keeps the hint.
    w.set_model_size(ModelSize::Tiny);
    assert_eq!(w.state.status_text.as_deref(), Some(CAPTURE_HINT_TEXT));
    w.cancel_hotkey_capture();
    w.show_error("disk full");
    assert_eq!(w.state.status_text.as_deref(), Some("Error: disk full"));
    w.set_model_size(ModelSize::Large);
    assert_eq!(w.state.status_text, None);
    assert_eq!(model_size_title(ModelSize::Large), "Large");
}
