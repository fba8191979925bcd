use whisper_input::app::{
    auto_apply_command, handle_settings_action, menu_choice_for_id, sync_settings_window, AppStatus, MenuChoice,
    Pending, SessionState, Worker, WorkerCommand, WorkerEffect, WorkerError, WorkerEvent, WorkerInput,
};
use whisper_input::config::{Cli, Config};
use whisper_input::hotkey::{CommandKeySide, HotkeyBinding, HotkeyEvent};
use whisper_input::keys::{Hotkey, CMD};
use whisper_input::model::ModelSize;
use whisper_input::settings_window::{CaptureStage, SettingsAction, SettingsWindow};
use whisper_input::sound::SoundCue;

fn config(auto_paste: bool) -> Config {
    let mut cli = Cli::defaults(String::from("/tmp/models"));
    cli.no_auto_paste = !auto_paste;
    Config::from_cli(cli, Some(4)).unwrap()
}

fn started(auto_paste: bool) -> Worker {
    let (mut w, effects) = Worker::start(config(auto_paste));
    assert_eq!(effects[0], WorkerEffect::SpawnListener(HotkeyBinding::CommandTap(CommandKeySide::Right)));
    assert_eq!(effects[3], WorkerEffect::InitializeRuntime(ModelSize::Base));
    let effects = w.step(WorkerInput::RuntimeInitialized(Ok(())));
    assert_eq!(
        effects,
        vec![WorkerEffect::CommitRuntime, WorkerEffect::Notify(WorkerEvent::Status(AppStatus::Idle))]
    );
    w
}

#[test]
fn full_session_copies_pastes_and_reports_length() {
    let mut w = started(true);
    assert_eq!(w.step(WorkerInput::Hotkey(HotkeyEvent::ToggleRecording)), vec![WorkerEffect::StartRecording]);
    assert_eq!(
        w.step(WorkerInput::RecordingStarted(Ok(()))),
        vec![
            WorkerEffect::Notify(WorkerEvent::Status(AppStatus::Listening)),
            WorkerEffect::PlaySound(SoundCue::ListeningStarted)
        ]
    );
    assert_eq!(w.runtime.unwrap().state, SessionState::Recording);
    assert_eq!(
        w.step(WorkerInput::Command(WorkerCommand::ToggleRecording)),
        vec![
            WorkerEffect::Notify(WorkerEvent::Status(AppStatus::Processing)),
            WorkerEffect::PlaySound(SoundCue::ListeningStopped),
            WorkerEffect::StopRecording
        ]
    );
    assert_eq!(w.step(WorkerInput::RecordingStopped { has_signal: true }), vec![WorkerEffect::Transcribe]);
    assert_eq!(
        w.step(WorkerInput::Transcribed(Ok(String::from("héllo")))),
        vec![WorkerEffect::CopyToClipboard(String::from("héllo"))]
    );
    assert_eq!(
        w.step(WorkerInput::Copied(Ok(()))),
        vec![
            WorkerEffect::Notify(WorkerEvent::PasteRequested),
            WorkerEffect::Notify(WorkerEvent::TranscriptReady(5)),
            WorkerEffect::Notify(WorkerEvent::Status(AppStatus::Idle))
        ]
    );
    assert_eq!(w.pending, Pending::Ready);
}

#[test]
fn without_auto_paste_the_transcript_is_printed() {
    let mut w = started(false);
    w.step(WorkerInput::Hotkey(HotkeyEvent::ToggleRecording));
    w.step(WorkerInput::RecordingStarted(Ok(())));
    w.step(WorkerInput::Hotkey(HotkeyEvent::ToggleRecording));
    w.step(WorkerInput::RecordingStopped { has_signal: true });
    w.step(WorkerInput::Transcribed(Ok(String::from("hi"))));
    let effects = w.step(WorkerInput::Copied(Ok(())));
    assert_eq!(
        effects,
        vec![
            WorkerEffect::Notify(WorkerEvent::TranscriptReady(2)),
            WorkerEffect::Notify(WorkerEvent::Status(AppStatus::Idle)),
            WorkerEffect::PrintTranscript(String::from("hi"))
        ]
    );
}

#[test]
fn quiet_audio_and_empty_transcripts_go_back_to_idle() {
    let mut w = started(true);
    w.step(WorkerInput::Hotkey(HotkeyEvent::ToggleRecording));
    w.step(WorkerInput::RecordingStarted(Ok(())));
    w.step(WorkerInput::Hotkey(HotkeyEvent::ToggleRecording));
    assert_eq!(
        w.step(WorkerInput::RecordingStopped { has_signal: false }),
        vec![WorkerEffect::Notify(WorkerEvent::Status(AppStatus::Idle))]
    );
    w.step(WorkerInput::Hotkey(HotkeyEvent::ToggleRecording));
    w.step(WorkerInput::RecordingStarted(Ok(())));
    w.step(WorkerInput::Hotkey(HotkeyEvent::ToggleRecording));
    w.step(WorkerInput::RecordingStopped { has_signal: true });
    assert_eq!(
        w.step(WorkerInput::Transcribed(Ok(String::new()))),
        vec![WorkerEffect::Notify(WorkerEvent::Status(AppStatus::Idle))]
    );
}

#[test]
fn failures_are_reported_and_session_returns_to_idle() {
    let mut w = started(true);
    w.step(WorkerInput::Hotkey(HotkeyEvent::ToggleRecording));
    let effects = w.step(WorkerInput::RecordingStarted(Err(String::from("no mic"))));
    assert_eq!(
        effects,
        vec![
            WorkerEffect::Notify(WorkerEvent::Error(WorkerError::Failed(String::from("no mic")))),
            WorkerEffect::Notify(WorkerEvent::Status(AppStatus::Error)),
            WorkerEffect::Notify(WorkerEvent::Status(AppStatus::Idle))
        ]
    );
    let rt = w.runtime.unwrap();
    assert_eq!(rt.state, SessionState::Idle);
    assert!(!rt.recording);
}

#[test]
fn failed_startup_initializes_on_first_toggle() {
    let (mut w, _) = Worker::start(config(true));
    let effects = w.step(WorkerInput::RuntimeInitialized(Err(String::from("offline"))));
    assert_eq!(effects.len(), 2);
    assert!(w.runtime.is_none());
    assert_eq!(
        w.step(WorkerInput::Hotkey(HotkeyEvent::ToggleRecording)),
        vec![
            WorkerEffect::Notify(WorkerEvent::Status(AppStatus::Initializing)),
            WorkerEffect::InitializeRuntime(ModelSize::Base)
        ]
    );
    assert_eq!(
        w.step(WorkerInput::RuntimeInitialized(Ok(()))),
        vec![
            WorkerEffect::CommitRuntime,
            WorkerEffect::Notify(WorkerEvent::Status(AppStatus::Idle)),
            WorkerEffect::StartRecording
        ]
    );
}

#[test]
fn model_change_is_refused_while_recording_and_restored_on_failure() {
    let mut w = started(true);
    w.step(WorkerInput::Hotkey(HotkeyEvent::ToggleRecording));
    w.step(WorkerInput::RecordingStarted(Ok(())));
    let effects = w.step(WorkerInput::Command(WorkerCommand::SetModelSize(ModelSize::Small)));
    assert_eq!(
        effects,
        vec![
            WorkerEffect::Notify(WorkerEvent::Error(WorkerError::StopRecordingFirst)),
            WorkerEffect::Notify(WorkerEvent::ModelSizeChanged(ModelSize::Base))
        ]
    );
    assert_eq!(WorkerError::StopRecordingFirst.message(), "stop recording before changing model size");
    w.step(WorkerInput::Hotkey(HotkeyEvent::ToggleRecording));
    w.step(WorkerInput::RecordingStopped { has_signal: false });

    let effects = w.step(WorkerInput::Command(WorkerCommand::SetModelSize(ModelSize::Small)));
    assert_eq!(effects[1], WorkerEffect::InitializeRuntime(ModelSize::Small));
    let effects = w.step(WorkerInput::RuntimeInitialized(Err(String::from("download failed"))));
    assert_eq!(effects.last(), Some(&WorkerEffect::Notify(WorkerEvent::ModelSizeChanged(ModelSize::Base))));
    assert_eq!(w.config.model_size, ModelSize::Base);

    w.step(WorkerInput::Command(WorkerCommand::SetModelSize(ModelSize::Small)));
    let effects = w.step(WorkerInput::RuntimeInitialized(Ok(())));
    assert_eq!(effects.last(), Some(&WorkerEffect::Notify(WorkerEvent::ModelSizeChanged(ModelSize::Small))));
    assert_eq!(w.config.model_size, ModelSize::Small);
    assert_eq!(
        w.step(WorkerInput::Command(WorkerCommand::SetModelSize(ModelSize::Small))),
        vec![WorkerEffect::Notify(WorkerEvent::ModelSizeChanged(ModelSize::Small))]
    );
}

#[test]
fn binding_changes_and_capture() {
    let mut w = started(true);
    let right = HotkeyBinding::CommandTap(CommandKeySide::Right);
    assert_eq!(
        w.step(WorkerInput::Command(WorkerCommand::SetHotkeyBinding(right))),
        vec![WorkerEffect::Notify(WorkerEvent::HotkeyBindingChanged(right))]
    );
    let left = HotkeyBinding::CommandTap(CommandKeySide::Left);
    assert_eq!(
        w.step(WorkerInput::Command(WorkerCommand::SetHotkeyBinding(left))),
        vec![
            WorkerEffect::SetListenerBinding(left),
            WorkerEffect::Notify(WorkerEvent::HotkeyBindingChanged(left))
        ]
    );
    assert_eq!(w.config.command_key, CommandKeySide::Left);
    assert_eq!(
        w.step(WorkerInput::Command(WorkerCommand::BeginHotkeyCapture)),
        vec![WorkerEffect::RequestCapture, WorkerEffect::Notify(WorkerEvent::HotkeyCaptureStarted)]
    );
    let combo = Hotkey::new(CMD, Some(handy_keys::Key::K)).unwrap();
    assert_eq!(
        w.step(WorkerInput::Hotkey(HotkeyEvent::CapturedKeyCombo(combo))),
        vec![WorkerEffect::Notify(WorkerEvent::HotkeyCaptureCompleted(combo))]
    );
    assert_eq!(
        w.step(WorkerInput::Hotkey(HotkeyEvent::CaptureCancelled)),
        vec![WorkerEffect::Notify(WorkerEvent::HotkeyCaptureCancelled)]
    );
}

#[test]
fn quit_stops_the_worker_for_good() {
    let mut w = started(true);
    assert_eq!(w.step(WorkerInput::Command(WorkerCommand::Quit)), vec![WorkerEffect::Exit]);
    assert!(w.stopped);
    assert!(w.step(WorkerInput::Hotkey(HotkeyEvent::ToggleRecording)).is_empty());
    let mut w = started(true);
    assert_eq!(w.step(WorkerInput::CommandsClosed), vec![WorkerEffect::Exit]);
}

#[test]
fn unexpected_outcomes_are_ignored() {
    let mut w = started(true);
    assert!(w.step(WorkerInput::Copied(Ok(()))).is_empty());
    assert!(w.step(WorkerInput::RecordingStopped { has_signal: true }).is_empty());
    assert_eq!(w.pending, Pending::Ready);
}

#[test]
fn menu_and_settings_mappings() {
    assert_eq!(menu_choice_for_id("toggle"), MenuChoice::ToggleRecording);
    assert_eq!(menu_choice_for_id("settings"), MenuChoice::OpenSettings);
    assert_eq!(menu_choice_for_id("diagnose_permissions"), MenuChoice::DiagnosePermissions);
    assert_eq!(menu_choice_for_id("quit"), MenuChoice::Quit);
    assert_eq!(menu_choice_for_id("status"), MenuChoice::Ignore);
    assert_eq!(
        handle_settings_action(SettingsAction::UseDefaultHotkey),
        WorkerCommand::SetHotkeyBinding(HotkeyBinding::CommandTap(CommandKeySide::Right))
    );
    assert_eq!(handle_settings_action(SettingsAction::CaptureHotkey), WorkerCommand::BeginHotkeyCapture);
    assert_eq!(
        handle_settings_action(SettingsAction::SetModelSize(ModelSize::Tiny)),
        WorkerCommand::SetModelSize(ModelSize::Tiny)
    );
}

#[test]
fn captured_combination_is_applied_and_shown() {
    let combo = Hotkey::new(CMD, Some(handy_keys::Key::J)).unwrap();
    let event = WorkerEvent::HotkeyCaptureCompleted(combo);
    assert_eq!(
        auto_apply_command(&event),
        Some(WorkerCommand::SetHotkeyBinding(HotkeyBinding::KeyCombo(combo)))
    );
    assert_eq!(auto_apply_command(&WorkerEvent::PasteRequested), None);

    let mut window = SettingsWindow::new(ModelSize::Base, &HotkeyBinding::CommandTap(CommandKeySide::Right));
    sync_settings_window(&mut window, &WorkerEvent::HotkeyCaptureStarted);
    assert_eq!(window.state.capture_stage, CaptureStage::Capturing);
    sync_settings_window(&mut window, &event);
    assert_eq!(window.state.hotkey_binding, HotkeyBinding::KeyCombo(combo));
    sync_settings_window(&mut window, &WorkerEvent::Error(WorkerError::Failed(String::from("x"))));
    assert_eq!(window.state.status_text.as_deref(), Some("Error: x"));
}
