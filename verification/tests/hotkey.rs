use handy_keys::Key;
use whisper_input::hotkey::{
    combo_matches_event, describe_hotkey_binding, normalize_modifiers, CommandKeySide,
    CommandTapDetector, HotkeyBinding, HotkeyEvent, ListenerState,
};
use whisper_input::keys::{Hotkey, HotkeyError, KeyEvent, CMD, CMD_LEFT, CMD_RIGHT, CTRL_LEFT, FN, SHIFT, SHIFT_RIGHT};

const MS: u64 = 1_000_000;

fn make_event(modifiers: u32, key: Option<Key>, is_key_down: bool, changed_modifier: Option<u32>) -> KeyEvent {
    KeyEvent { modifiers, key, is_key_down, changed_modifier }
}

#[test]
fn quick_left_command_tap_triggers_toggle() {
    let mut detector = CommandTapDetector::new(CommandKeySide::Left, 450 * MS);
    let now = 0;

    assert_eq!(detector.on_event(make_event(CMD_LEFT, None, true, Some(CMD_LEFT)), now), None);

    assert_eq!(
        detector.on_event(make_event(0, None, false, Some(CMD_LEFT)), now + 80 * MS),
        Some(HotkeyEvent::ToggleRecording)
    );
}

#[test]
fn long_hold_does_not_trigger_toggle() {
    let mut detector = CommandTapDetector::new(CommandKeySide::Left, 100 * MS);
    let now = 0;

    detector.on_event(make_event(CMD_LEFT, None, true, Some(CMD_LEFT)), now);

    assert_eq!(detector.on_event(make_event(0, None, false, Some(CMD_LEFT)), now + 120 * MS), None);
}

#[test]
fn chorded_command_does_not_trigger_toggle() {
    let mut detector = CommandTapDetector::new(CommandKeySide::Left, 450 * MS);
    let now = 0;

    detector.on_event(make_event(CMD_LEFT, None, true, Some(CMD_LEFT)), now);
    detector.on_event(make_event(CMD_LEFT, Some(Key::V), true, None), now + 10 * MS);

    assert_eq!(detector.on_event(make_event(0, None, false, Some(CMD_LEFT)), now + 80 * MS), None);
}

#[test]
fn right_command_tap_triggers_when_configured() {
    let mut detector = CommandTapDetector::new(CommandKeySide::Right, 450 * MS);
    let now = 0;

    assert_eq!(detector.on_event(make_event(CMD_RIGHT, None, true, Some(CMD_RIGHT)), now), None);

    assert_eq!(
        detector.on_event(make_event(0, None, false, Some(CMD_RIGHT)), now + 80 * MS),
        Some(HotkeyEvent::ToggleRecording)
    );
}

#[test]
fn either_side_ignores_non_matching_config_only_when_required() {
    let mut left_only = CommandTapDetector::new(CommandKeySide::Left, 450 * MS);
    let now = 0;
    left_only.on_event(make_event(CMD_RIGHT, None, true, Some(CMD_RIGHT)), now);
    assert_eq!(left_only.on_event(make_event(0, None, false, Some(CMD_RIGHT)), now + 80 * MS), None);

    let mut either = CommandTapDetector::new(CommandKeySide::Either, 450 * MS);
    either.on_event(make_event(CMD_RIGHT, None, true, Some(CMD_RIGHT)), now);
    assert_eq!(
        either.on_event(make_event(0, None, false, Some(CMD_RIGHT)), now + 80 * MS),
        Some(HotkeyEvent::ToggleRecording)
    );
}

#[test]
fn normalize_modifiers_merges_command_side_variants() {
    let left = normalize_modifiers(CMD_LEFT);
    let right = normalize_modifiers(CMD_RIGHT);
    assert_eq!(left, CMD);
    assert_eq!(right, CMD);
}

#[test]
fn combo_matching_requires_keydown_and_matching_modifiers() {
    let combo = Hotkey::new(CMD | SHIFT, Some(Key::V)).expect("valid hotkey");
    let matching_event = make_event(CMD | SHIFT, Some(Key::V), true, None);
    let non_matching_event = make_event(CMD, Some(Key::V), true, None);
    let key_up_event = make_event(CMD | SHIFT, Some(Key::V), false, None);

    assert!(combo_matches_event(&combo, &matching_event));
    assert!(!combo_matches_event(&combo, &non_matching_event));
    assert!(!combo_matches_event(&combo, &key_up_event));
}

#[test]
fn default_command_tap_uses_right_command() {
    assert_eq!(HotkeyBinding::default_command_tap(), HotkeyBinding::CommandTap(CommandKeySide::Right));
}

#[test]
fn describe_hotkey_binding_formats_command_taps() {
    assert_eq!(describe_hotkey_binding(&HotkeyBinding::CommandTap(CommandKeySide::Left)), "Left Command Tap");
    assert_eq!(describe_hotkey_binding(&HotkeyBinding::CommandTap(CommandKeySide::Right)), "Right Command Tap");
    assert_eq!(
        describe_hotkey_binding(&HotkeyBinding::CommandTap(CommandKeySide::Either)),
        "Either Command Tap"
    );
}

#[test]
fn describe_hotkey_binding_formats_custom_combo() {
    let hotkey = Hotkey::new(CMD | SHIFT, Some(Key::V)).expect("valid hotkey");
    let summary = describe_hotkey_binding(&HotkeyBinding::KeyCombo(hotkey));
    assert!(summary.starts_with("Custom ("));
    assert!(summary.ends_with(')'));
    let outside = handy_keys::Hotkey::new(handy_keys::Modifiers::CMD | handy_keys::Modifiers::SHIFT, Key::V)
        .unwrap()
        .to_string();
    assert_eq!(summary, format!("Custom ({outside})"));
}

#[test]
fn empty_hotkey_is_refused() {
    assert_eq!(Hotkey::new(0, None), Err(HotkeyError::EmptyHotkey));
    assert!(Hotkey::new(0, Some(Key::F1)).is_ok());
    assert!(Hotkey::new(CMD | SHIFT, None).is_ok());
}

#[test]
fn normalize_keeps_fn_and_merges_all_groups() {
    assert_eq!(normalize_modifiers(SHIFT_RIGHT | CTRL_LEFT | FN), SHIFT | 132 | FN);
    assert_eq!(normalize_modifiers(0), 0);
    let once = normalize_modifiers(CMD_LEFT | SHIFT_RIGHT);
    assert_eq!(normalize_modifiers(once), once);
}

#[test]
fn tap_at_exact_window_toggles_and_press_repeat_is_ignored() {
    let mut d = CommandTapDetector::new(CommandKeySide::Right, 450 * MS);
    d.on_event(make_event(CMD_RIGHT, None, true, Some(CMD_RIGHT)), 0);
    // A repeated press event while held keeps the first press time.
    d.on_event(make_event(CMD_RIGHT, None, true, Some(CMD_RIGHT)), 300 * MS);
    assert_eq!(
        d.on_event(make_event(0, None, false, Some(CMD_RIGHT)), 450 * MS),
        Some(HotkeyEvent::ToggleRecording)
    );
    // After the release a second release alone does nothing.
    assert_eq!(d.on_event(make_event(0, None, false, Some(CMD_RIGHT)), 460 * MS), None);
}

#[test]
fn captured_combination_fires_on_the_same_press() {
    let press = make_event(CMD_LEFT | SHIFT_RIGHT, Some(Key::K), true, None);
    let captured = Hotkey::new(normalize_modifiers(press.modifiers), press.key).unwrap();
    assert!(combo_matches_event(&captured, &press));
}

#[test]
fn listener_capture_mode_reports_escape_and_combination() {
    let mut s = ListenerState::new(HotkeyBinding::CommandTap(CommandKeySide::Right), 450 * MS);
    let configured = HotkeyBinding::CommandTap(CommandKeySide::Right);
    let step = s.on_event(true, configured, make_event(CMD_LEFT, Some(Key::K), true, None), 0);
    assert!(step.clear_capture);
    assert_eq!(step.events, vec![HotkeyEvent::CapturedKeyCombo(Hotkey::new(CMD, Some(Key::K)).unwrap())]);

    let step = s.on_event(true, configured, make_event(0, Some(Key::Escape), true, None), 0);
    assert!(step.clear_capture);
    assert_eq!(step.events, vec![HotkeyEvent::CaptureCancelled]);
    let step = s.on_event(true, configured, make_event(CMD, Some(Key::Escape), true, None), 0);
    assert!(step.clear_capture);
    assert_eq!(step.events, vec![HotkeyEvent::CaptureCancelled]);

    let step = s.on_event(true, configured, make_event(CMD, None, true, Some(CMD_LEFT)), 0);
    assert!(!step.clear_capture);
    assert!(step.events.is_empty());
}

#[test]
fn listener_combo_fires_once_until_released() {
    let combo = Hotkey::new(CMD | SHIFT, Some(Key::V)).unwrap();
    let binding = HotkeyBinding::KeyCombo(combo);
    let mut s = ListenerState::new(binding, 450 * MS);
    let press = make_event(CMD | SHIFT, Some(Key::V), true, None);
    assert_eq!(s.on_event(false, binding, press, 0).events, vec![HotkeyEvent::ToggleRecording]);
    // Auto-repeat of the held combination does not toggle again.
    assert!(s.on_event(false, binding, press, 10).events.is_empty());
    // Releasing the key re-arms the combination.
    s.on_event(false, binding, make_event(CMD | SHIFT, Some(Key::V), false, None), 20);
    assert_eq!(s.on_event(false, binding, press, 30).events, vec![HotkeyEvent::ToggleRecording]);
}

#[test]
fn listener_switches_to_newly_configured_tap_side() {
    let mut s = ListenerState::new(HotkeyBinding::CommandTap(CommandKeySide::Right), 450 * MS);
    let left = HotkeyBinding::CommandTap(CommandKeySide::Left);
    assert!(s.on_event(false, left, make_event(CMD_LEFT, None, true, Some(CMD_LEFT)), 0).events.is_empty());
    assert_eq!(s.active_binding, left);
    assert_eq!(
        s.on_event(false, left, make_event(0, None, false, Some(CMD_LEFT)), 50 * MS).events,
        vec![HotkeyEvent::ToggleRecording]
    );
}
