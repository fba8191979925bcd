use handy_keys::Key;
use whisper_input::hotkey::{CommandKeySide, HotkeyBinding};
use whisper_input::hotkey_dialog::{
    build_hotkey_confirmation_message, build_hotkey_setup_message, confirmation_action_for_button,
    setup_action_for_button, HotkeyConfirmationAction, HotkeySetupAction,
};
use whisper_input::keys::{Hotkey, CMD, SHIFT};

#[test]
fn setup_message_includes_current_binding_and_cancel_hint() {
    let message = build_hotkey_setup_message(&HotkeyBinding::CommandTap(CommandKeySide::Right));
    assert!(message.contains("Current hotkey: Right Command Tap"));
    assert!(message.contains("Use Default"));
    assert!(message.contains("Escape"));
    assert!(message.contains("Diagnose Permissions"));
}

#[test]
fn confirmation_message_includes_current_and_captured_hotkeys() {
    let captured = Hotkey::new(CMD | SHIFT, Some(Key::Space)).expect("valid hotkey");
    let message =
        build_hotkey_confirmation_message(&HotkeyBinding::CommandTap(CommandKeySide::Right), captured);
    let captured_text =
        handy_keys::Hotkey::new(handy_keys::Modifiers::CMD | handy_keys::Modifiers::SHIFT, Key::Space)
            .unwrap()
            .to_string();

    assert!(message.contains("Captured hotkey: "));
    assert!(message.contains(&captured_text));
    assert!(message.contains("Current hotkey: Right Command Tap"));
}

#[test]
fn dialog_buttons_map_to_actions() {
    assert_eq!(setup_action_for_button(Some("Use Default")), HotkeySetupAction::UseDefaultCommandTap);
    assert_eq!(setup_action_for_button(Some("Capture Combo")), HotkeySetupAction::CaptureCustomCombo);
    assert_eq!(setup_action_for_button(Some("Cancel")), HotkeySetupAction::Cancel);
    assert_eq!(setup_action_for_button(None), HotkeySetupAction::Cancel);
    assert_eq!(confirmation_action_for_button(Some("Retry")), HotkeyConfirmationAction::RetryCapture);
    assert_eq!(confirmation_action_for_button(Some("Use Hotkey")), HotkeyConfirmationAction::UseCapturedHotkey);
    assert_eq!(confirmation_action_for_button(Some("use hotkey")), HotkeyConfirmationAction::Cancel);
    assert_eq!(confirmation_action_for_button(None), HotkeyConfirmationAction::Cancel);
}
