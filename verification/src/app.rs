//! Decisions of the background worker: the recording session, runtime
//! (re)initialization, hotkey-binding and model-size changes, and what the
//! tray and the settings window are told.
//!
//! The worker is a state machine. The runtime performs each requested
//! effect in order and hands back the outcome of the effects that have
//! one; the machine only decides.

use vstd::prelude::*;
use crate::config::Config;
use crate::hotkey::{CommandKeySide, HotkeyBinding, HotkeyEvent};
use crate::keys::Hotkey;
use crate::model::ModelSize;
use crate::sound::SoundCue;
use crate::settings_window::{SettingsAction, SettingsWindow, CAPTURE_HINT_TEXT};
use crate::startup::same_text;

verus! {

/// Whether a recording session is in progress.
#[derive(Debug, Clone, Copy, PartialEq, Eq, Structural)]
pub enum SessionState {
    Idle,
    Recording,
}

/// What a toggle does in a session state.
#[derive(Debug, Clone, Copy, PartialEq, Eq, Structural)]
pub enum ToggleAction {
    Start,
    StopAndProcess,
}

/// UI-visible state for the tray icon and menu.
#[derive(Debug, Clone, Copy, PartialEq, Eq, Structural)]
pub enum AppStatus {
    Initializing,
    Idle,
    Listening,
    Processing,
    Error,
}

/// The action a toggle takes in a session state.
pub open spec fn toggle_action(state: SessionState) -> ToggleAction {
    match state {
        SessionState::Idle => ToggleAction::Start,
        SessionState::Recording => ToggleAction::StopAndProcess,
    }
}

/// Computes the next action for a command-key toggle.
pub fn next_action(state: SessionState) -> (a: ToggleAction)
    ensures
        a == toggle_action(state),
{
    match state {
        SessionState::Idle => ToggleAction::Start,
        SessionState::Recording => ToggleAction::StopAndProcess,
    }
}

/// Commands sent from the tray and the settings window to the worker.
#[derive(Debug, Clone, Copy, PartialEq, Eq)]
pub enum WorkerCommand {
    ToggleRecording,
    BeginHotkeyCapture,
    SetHotkeyBinding(HotkeyBinding),
    SetModelSize(ModelSize),
    Quit,
}

/// A failure reported to the user.
#[derive(Debug, Clone, PartialEq, Eq)]
pub enum WorkerError {
    /// A model change was asked for while recording.
    StopRecordingFirst,
    /// An operation failed with this message.
    Failed(String),
}

/// The text of a failure.
pub open spec fn worker_error_text(e: WorkerError) -> Seq<char> {
    match e {
        WorkerError::StopRecordingFirst => "stop recording before changing model size"@,
        WorkerError::Failed(m) => m@,
    }
}

impl WorkerError {
    /// Returns the user-facing text of the failure.
    pub fn message(&self) -> (m: String)
        ensures
            m@ == worker_error_text(*self),
    {
        match self {
            WorkerError::StopRecordingFirst => String::from_str(
                "stop recording before changing model size",
            ),
            WorkerError::Failed(m) => m.clone(),
        }
    }
}

/// Notifications sent from the worker to the tray and the settings window.
#[derive(Debug, Clone, PartialEq, Eq)]
pub enum WorkerEvent {
    Status(AppStatus),
    Error(WorkerError),
    HotkeyCaptureStarted,
    HotkeyCaptureCompleted(Hotkey),
    HotkeyCaptureCancelled,
    HotkeyBindingChanged(HotkeyBinding),
    ModelSizeChanged(ModelSize),
    PasteRequested,
    TranscriptReady(usize),
}

/// What the worker asks its runtime to do.
#[derive(Debug, Clone, PartialEq, Eq)]
pub enum WorkerEffect {
    /// Tell the tray and the settings window.
    Notify(WorkerEvent),
    /// Start the global hotkey listener with a binding.
    SpawnListener(HotkeyBinding),
    /// Switch the running listener to a binding.
    SetListenerBinding(HotkeyBinding),
    /// Arm one-shot capture of the next key combination.
    RequestCapture,
    /// Ensure the model of this size is cached, then open the microphone and
    /// load the model; answered by `RuntimeInitialized`.
    InitializeRuntime(ModelSize),
    /// Replace the current runtime with the one just initialized.
    CommitRuntime,
    /// Open a microphone stream; answered by `RecordingStarted`.
    StartRecording,
    /// Close the stream and check the audio's signal; answered by `RecordingStopped`.
    StopRecording,
    /// Transcribe the captured audio; answered by `Transcribed`.
    Transcribe,
    /// Put text on the clipboard; answered by `Copied`.
    CopyToClipboard(String),
    /// Write a transcript to standard output.
    PrintTranscript(String),
    /// Play a lifecycle sound.
    PlaySound(SoundCue),
    /// Leave the worker loop.
    Exit,
}

/// What the worker learns: a command, a hotkey event, or the outcome of an
/// effect it asked for.
#[derive(Debug)]
pub enum WorkerInput {
    Command(WorkerCommand),
    Hotkey(HotkeyEvent),
    CommandsClosed,
    RuntimeInitialized(Result<(), String>),
    RecordingStarted(Result<(), String>),
    RecordingStopped { has_signal: bool },
    Transcribed(Result<String, String>),
    Copied(Result<(), String>),
}

/// The worker's model of the recording runtime it owns.
#[derive(Debug, Clone, Copy, PartialEq, Eq, Structural)]
pub struct RuntimeModel {
    pub state: SessionState,
    pub auto_paste: bool,
    /// Whether a microphone stream is open.
    pub recording: bool,
}

/// The outcome the worker waits for, if any.
#[derive(Debug, PartialEq, Eq)]
pub enum Pending {
    /// Waiting for commands and hotkey events.
    Ready,
    /// Initializing the runtime at start-up.
    StartupInit,
    /// Initializing the runtime because a toggle found none.
    ToggleInit,
    /// Reloading the runtime for a new model size.
    ModelInit { previous_size: ModelSize },
    StartRecording,
    StopRecording,
    Transcribe,
    /// Copying this transcript.
    Copy { transcript: String },
}

/// The worker's state.
#[derive(Debug)]
pub struct Worker {
    pub config: Config,
    /// The binding the hotkey listener uses.
    pub binding: HotkeyBinding,
    pub runtime: Option<RuntimeModel>,
    pub pending: Pending,
    /// Set once the worker has been told to quit.
    pub stopped: bool,
}

/// A runtime just initialized from a configuration.
pub open spec fn fresh_runtime(auto_paste: bool) -> RuntimeModel {
    RuntimeModel { state: SessionState::Idle, auto_paste, recording: false }
}

/// What initialization failures report.
pub open spec fn failure_notices(message: String) -> Seq<WorkerEffect> {
    seq![
        WorkerEffect::Notify(WorkerEvent::Error(WorkerError::Failed(message))),
        WorkerEffect::Notify(WorkerEvent::Status(AppStatus::Error)),
    ]
}

/// A toggle applied to a worker that is ready.
pub open spec fn toggle_step(w: Worker) -> (Worker, Seq<WorkerEffect>) {
    match w.runtime {
        None => (
            Worker { pending: Pending::ToggleInit, ..w },
            seq![
                WorkerEffect::Notify(WorkerEvent::Status(AppStatus::Initializing)),
                WorkerEffect::InitializeRuntime(w.config.model_size),
            ],
        ),
        Some(rt) => match toggle_action(rt.state) {
            ToggleAction::Start => (
                Worker { pending: Pending::StartRecording, ..w },
                seq![WorkerEffect::StartRecording],
            ),
            ToggleAction::StopAndProcess => if !rt.recording {
                (
                    Worker {
                        runtime: Some(RuntimeModel { state: SessionState::Idle, ..rt }),
                        ..w
                    },
                    seq![WorkerEffect::Notify(WorkerEvent::Status(AppStatus::Idle))],
                )
            } else {
                (
                    Worker {
                        runtime: Some(
                            RuntimeModel { state: SessionState::Idle, recording: false, ..rt },
                        ),
                        pending: Pending::StopRecording,
                        ..w
                    },
                    seq![
                        WorkerEffect::Notify(WorkerEvent::Status(AppStatus::Processing)),
                        WorkerEffect::PlaySound(SoundCue::ListeningStopped),
                        WorkerEffect::StopRecording,
                    ],
                )
            },
        },
    }
}

/// A command applied to a worker that is ready.
pub open spec fn command_step(w: Worker, c: WorkerCommand) -> (Worker, Seq<WorkerEffect>) {
    match c {
        WorkerCommand::ToggleRecording => toggle_step(w),
        WorkerCommand::BeginHotkeyCapture => (
            w,
            seq![
                WorkerEffect::RequestCapture,
                WorkerEffect::Notify(WorkerEvent::HotkeyCaptureStarted),
            ],
        ),
        WorkerCommand::SetHotkeyBinding(b) => if w.binding == b {
            (w, seq![WorkerEffect::Notify(WorkerEvent::HotkeyBindingChanged(b))])
        } else {
            (
                Worker {
                    binding: b,
                    config: match b {
                        HotkeyBinding::CommandTap(side) => Config { command_key: side, ..w.config },
                        HotkeyBinding::KeyCombo(_) => w.config,
                    },
                    ..w
                },
                seq![
                    WorkerEffect::SetListenerBinding(b),
                    WorkerEffect::Notify(WorkerEvent::HotkeyBindingChanged(b)),
                ],
            )
        },
        WorkerCommand::SetModelSize(m) => if w.config.model_size == m {
            (w, seq![WorkerEffect::Notify(WorkerEvent::ModelSizeChanged(m))])
        } else if w.runtime matches Some(rt) && rt.state == SessionState::Recording {
            (
                w,
                seq![
                    WorkerEffect::Notify(WorkerEvent::Error(WorkerError::StopRecordingFirst)),
                    WorkerEffect::Notify(WorkerEvent::ModelSizeChanged(w.config.model_size)),
                ],
            )
        } else {
            (
                Worker {
                    config: Config { model_size: m, ..w.config },
                    pending: Pending::ModelInit { previous_size: w.config.model_size },
                    ..w
                },
                seq![
                    WorkerEffect::Notify(WorkerEvent::Status(AppStatus::Initializing)),
                    WorkerEffect::InitializeRuntime(m),
                ],
            )
        },
        WorkerCommand::Quit => (Worker { stopped: true, ..w }, seq![WorkerEffect::Exit]),
    }
}

/// A hotkey event applied to a worker that is ready.
pub open spec fn hotkey_step(w: Worker, e: HotkeyEvent) -> (Worker, Seq<WorkerEffect>) {
    match e {
        HotkeyEvent::ToggleRecording => toggle_step(w),
        HotkeyEvent::CapturedKeyCombo(h) => (
            w,
            seq![WorkerEffect::Notify(WorkerEvent::HotkeyCaptureCompleted(h))],
        ),
        HotkeyEvent::CaptureCancelled => (
            w,
            seq![WorkerEffect::Notify(WorkerEvent::HotkeyCaptureCancelled)],
        ),
    }
}

/// A failure while recording, transcribing or copying: it is reported and
/// the session is back to idle.
pub open spec fn session_failure(w: Worker, message: String) -> (Worker, Seq<WorkerEffect>) {
    (
        Worker {
            runtime: match w.runtime {
                Some(rt) => Some(RuntimeModel { state: SessionState::Idle, recording: false, ..rt }),
                None => None,
            },
            pending: Pending::Ready,
            ..w
        },
        failure_notices(message).push(WorkerEffect::Notify(WorkerEvent::Status(AppStatus::Idle))),
    )
}

/// The worker after an input, and the effects it asks for, in order.
///
/// Once stopped the worker ignores everything; while it waits for an
/// outcome it ignores every other input.
pub open spec fn next(w: Worker, input: WorkerInput) -> (Worker, Seq<WorkerEffect>) {
    let ready = Worker { pending: Pending::Ready, ..w };
    if w.stopped {
        (w, seq![])
    } else {
        match (w.pending, input) {
            (Pending::Ready, WorkerInput::Command(c)) => command_step(w, c),
            (Pending::Ready, WorkerInput::Hotkey(e)) => hotkey_step(w, e),
            (Pending::Ready, WorkerInput::CommandsClosed) => (
                Worker { stopped: true, ..w },
                seq![WorkerEffect::Exit],
            ),
            (Pending::StartupInit, WorkerInput::RuntimeInitialized(r)) => match r {
                Ok(_) => (
                    Worker { runtime: Some(fresh_runtime(w.config.auto_paste)), ..ready },
                    seq![
                        WorkerEffect::CommitRuntime,
                        WorkerEffect::Notify(WorkerEvent::Status(AppStatus::Idle)),
                    ],
                ),
                Err(m) => (ready, failure_notices(m)),
            },
            (Pending::ToggleInit, WorkerInput::RuntimeInitialized(r)) => match r {
                Ok(_) => (
                    Worker {
                        runtime: Some(fresh_runtime(w.config.auto_paste)),
                        pending: Pending::StartRecording,
                        ..w
                    },
                    seq![
                        WorkerEffect::CommitRuntime,
                        WorkerEffect::Notify(WorkerEvent::Status(AppStatus::Idle)),
                        WorkerEffect::StartRecording,
                    ],
                ),
                Err(m) => (ready, failure_notices(m)),
            },
            (Pending::ModelInit { previous_size }, WorkerInput::RuntimeInitialized(r)) => match r {
                Ok(_) => (
                    Worker { runtime: Some(fresh_runtime(w.config.auto_paste)), ..ready },
                    seq![
                        WorkerEffect::CommitRuntime,
                        WorkerEffect::Notify(WorkerEvent::Status(AppStatus::Idle)),
                        WorkerEffect::Notify(WorkerEvent::ModelSizeChanged(w.config.model_size)),
                    ],
                ),
                Err(m) => (
                    Worker { config: Config { model_size: previous_size, ..w.config }, ..ready },
                    failure_notices(m).push(
                        WorkerEffect::Notify(WorkerEvent::ModelSizeChanged(previous_size)),
                    ),
                ),
            },
            (Pending::StartRecording, WorkerInput::RecordingStarted(r)) => match r {
                Ok(_) => (
                    Worker {
                        runtime: match w.runtime {
                            Some(rt) => Some(
                                RuntimeModel {
                                    state: SessionState::Recording,
                                    recording: true,
                                    ..rt
                                },
                            ),
                            None => None,
                        },
                        ..ready
                    },
                    seq![
                        WorkerEffect::Notify(WorkerEvent::Status(AppStatus::Listening)),
                        WorkerEffect::PlaySound(SoundCue::ListeningStarted),
                    ],
                ),
                Err(m) => session_failure(w, m),
            },
            (Pending::StopRecording, WorkerInput::RecordingStopped { has_signal }) => if has_signal {
                (Worker { pending: Pending::Transcribe, ..w }, seq![WorkerEffect::Transcribe])
            } else {
                (ready, seq![WorkerEffect::Notify(WorkerEvent::Status(AppStatus::Idle))])
            },
            (Pending::Transcribe, WorkerInput::Transcribed(r)) => match r {
                Ok(text) => if text@.len() == 0 {
                    (ready, seq![WorkerEffect::Notify(WorkerEvent::Status(AppStatus::Idle))])
                } else {
                    (
                        Worker { pending: Pending::Copy { transcript: text }, ..w },
                        seq![WorkerEffect::CopyToClipboard(text)],
                    )
                },
                Err(m) => session_failure(w, m),
            },
            (Pending::Copy { transcript }, WorkerInput::Copied(r)) => match r {
                Ok(_) => (ready, copied_effects(w.runtime, transcript)),
                Err(m) => session_failure(w, m),
            },
            _ => (w, seq![]),
        }
    }
}

/// What follows a successful copy: an optional paste request, the transcript
/// length, idle status, and the transcript itself when it is not pasted.
pub open spec fn copied_effects(runtime: Option<RuntimeModel>, transcript: String) -> Seq<WorkerEffect> {
    let auto_paste = runtime matches Some(rt) && rt.auto_paste;
    let paste: Seq<WorkerEffect> = if auto_paste {
        seq![WorkerEffect::Notify(WorkerEvent::PasteRequested)]
    } else {
        seq![]
    };
    let reported = paste + seq![
        WorkerEffect::Notify(WorkerEvent::TranscriptReady(transcript@.len() as usize)),
        WorkerEffect::Notify(WorkerEvent::Status(AppStatus::Idle)),
    ];
    if auto_paste {
        reported
    } else {
        reported.push(WorkerEffect::PrintTranscript(transcript))
    }
}

/// The effects a worker starts with.
pub open spec fn start_effects(w: Worker) -> Seq<WorkerEffect> {
    seq![
        WorkerEffect::SpawnListener(w.binding),
        WorkerEffect::Notify(WorkerEvent::HotkeyBindingChanged(w.binding)),
        WorkerEffect::Notify(WorkerEvent::Status(AppStatus::Initializing)),
        WorkerEffect::InitializeRuntime(w.config.model_size),
    ]
}

impl Worker {
    /// The worker's invariant: a tap binding uses the configured command key,
    /// a runtime is recording exactly while its
    /// stream is open, it pastes as configured, and every outcome the worker
    /// waits for belongs to a runtime it has.
    pub open spec fn wf(self) -> bool {
        &&& (self.binding matches HotkeyBinding::CommandTap(side) ==> self.config.command_key == side)
        &&& (self.runtime matches Some(rt) ==> {
            &&& (rt.state == SessionState::Recording <==> rt.recording)
            &&& rt.auto_paste == self.config.auto_paste
        })
        &&& (match self.pending {
            Pending::StartRecording | Pending::StopRecording | Pending::Transcribe
            | Pending::Copy { .. } => self.runtime is Some,
            _ => true,
        })
        &&& (match self.pending {
            Pending::StopRecording | Pending::Transcribe | Pending::Copy { .. } =>
                self.runtime matches Some(rt) && rt.state == SessionState::Idle,
            _ => true,
        })
    }

    /// Creates the worker for a configuration: the listener starts with a tap
    /// of the configured command key, and the runtime is initialized.
    pub fn start(config: Config) -> (r: (Worker, Vec<WorkerEffect>))
        ensures
            r.0.config == config,
            r.0.binding == HotkeyBinding::CommandTap(config.command_key),
            r.0.runtime is None,
            r.0.pending == Pending::StartupInit,
            !r.0.stopped,
            r.0.wf(),
            r.1@ == start_effects(r.0),
    {
        let binding = HotkeyBinding::CommandTap(config.command_key);
        let model_size = config.model_size;
        let w = Worker { config, binding, runtime: None, pending: Pending::StartupInit, stopped: false };
        let effects = vec![
            WorkerEffect::SpawnListener(binding),
            WorkerEffect::Notify(WorkerEvent::HotkeyBindingChanged(binding)),
            WorkerEffect::Notify(WorkerEvent::Status(AppStatus::Initializing)),
            WorkerEffect::InitializeRuntime(model_size),
        ];
        (w, effects)
    }

    /// Applies a toggle to a ready worker.
    fn toggle(&mut self) -> (effects: Vec<WorkerEffect>)
        requires
            old(self).pending == Pending::Ready,
            !old(self).stopped,
        ensures
            (*final(self), effects@) == toggle_step(*old(self)),
    {
        match self.runtime {
            None => {
                self.pending = Pending::ToggleInit;
                vec![
                    WorkerEffect::Notify(WorkerEvent::Status(AppStatus::Initializing)),
                    WorkerEffect::InitializeRuntime(self.config.model_size),
                ]
            },
            Some(rt) => match next_action(rt.state) {
                ToggleAction::Start => {
                    self.pending = Pending::StartRecording;
                    vec![WorkerEffect::StartRecording]
                },
                ToggleAction::StopAndProcess => {
                    if !rt.recording {
                        self.runtime = Some(RuntimeModel { state: SessionState::Idle, ..rt });
                        vec![WorkerEffect::Notify(WorkerEvent::Status(AppStatus::Idle))]
                    } else {
                        self.runtime = Some(
                            RuntimeModel { state: SessionState::Idle, recording: false, ..rt },
                        );
                        self.pending = Pending::StopRecording;
                        vec![
                            WorkerEffect::Notify(WorkerEvent::Status(AppStatus::Processing)),
                            WorkerEffect::PlaySound(SoundCue::ListeningStopped),
                            WorkerEffect::StopRecording,
                        ]
                    }
                },
            },
        }
    }

    /// Applies a command to a ready worker.
    fn command(&mut self, c: WorkerCommand) -> (effects: Vec<WorkerEffect>)
        requires
            old(self).pending == Pending::Ready,
            !old(self).stopped,
        ensures
            (*final(self), effects@) == command_step(*old(self), c),
    {
        match c {
            WorkerCommand::ToggleRecording => self.toggle(),
            WorkerCommand::BeginHotkeyCapture => vec![
                WorkerEffect::RequestCapture,
                WorkerEffect::Notify(WorkerEvent::HotkeyCaptureStarted),
            ],
            WorkerCommand::SetHotkeyBinding(b) => {
                if self.binding.same_as(&b) {
                    vec![WorkerEffect::Notify(WorkerEvent::HotkeyBindingChanged(b))]
                } else {
                    if let HotkeyBinding::CommandTap(side) = b {
                        self.config.command_key = side;
                    }
                    self.binding = b;
                    vec![
                        WorkerEffect::SetListenerBinding(b),
                        WorkerEffect::Notify(WorkerEvent::HotkeyBindingChanged(b)),
                    ]
                }
            },
            WorkerCommand::SetModelSize(m) => {
                if self.config.model_size == m {
                    vec![WorkerEffect::Notify(WorkerEvent::ModelSizeChanged(m))]
                } else {
                    let recording = match self.runtime {
                        Some(rt) => rt.state == SessionState::Recording,
                        None => false,
                    };
                    if recording {
                        vec![
                            WorkerEffect::Notify(WorkerEvent::Error(WorkerError::StopRecordingFirst)),
                            WorkerEffect::Notify(WorkerEvent::ModelSizeChanged(self.config.model_size)),
                        ]
                    } else {
                        let previous_size = self.config.model_size;
                        self.config.model_size = m;
                        self.pending = Pending::ModelInit { previous_size };
                        vec![
                            WorkerEffect::Notify(WorkerEvent::Status(AppStatus::Initializing)),
                            WorkerEffect::InitializeRuntime(m),
                        ]
                    }
                }
            },
            WorkerCommand::Quit => {
                self.stopped = true;
                vec![WorkerEffect::Exit]
            },
        }
    }

    /// Applies a hotkey event to a ready worker.
    fn hotkey(&mut self, e: HotkeyEvent) -> (effects: Vec<WorkerEffect>)
        requires
            old(self).pending == Pending::Ready,
            !old(self).stopped,
        ensures
            (*final(self), effects@) == hotkey_step(*old(self), e),
    {
        match e {
            HotkeyEvent::ToggleRecording => self.toggle(),
            HotkeyEvent::CapturedKeyCombo(h) => vec![
                WorkerEffect::Notify(WorkerEvent::HotkeyCaptureCompleted(h)),
            ],
            HotkeyEvent::CaptureCancelled => vec![
                WorkerEffect::Notify(WorkerEvent::HotkeyCaptureCancelled),
            ],
        }
    }

    /// Reports a session failure and returns the session to idle.
    fn fail_session(&mut self, message: String) -> (effects: Vec<WorkerEffect>)
        requires
            old(self).pending == Pending::Ready,
        ensures
            (*final(self), effects@) == session_failure(*old(self), message),
    {
        if let Some(rt) = self.runtime {
            self.runtime = Some(RuntimeModel { state: SessionState::Idle, recording: false, ..rt });
        }
        vec![
            WorkerEffect::Notify(WorkerEvent::Error(WorkerError::Failed(message))),
            WorkerEffect::Notify(WorkerEvent::Status(AppStatus::Error)),
            WorkerEffect::Notify(WorkerEvent::Status(AppStatus::Idle)),
        ]
    }

    /// Reports a failed initialization.
    fn fail_init(message: String) -> (effects: Vec<WorkerEffect>)
        ensures
            effects@ == failure_notices(message),
    {
        vec![
            WorkerEffect::Notify(WorkerEvent::Error(WorkerError::Failed(message))),
            WorkerEffect::Notify(WorkerEvent::Status(AppStatus::Error)),
        ]
    }

    /// Advances the worker by one input and returns the effects to perform,
    /// in order.
    pub fn step(&mut self, input: WorkerInput) -> (effects: Vec<WorkerEffect>)
        ensures
            (*final(self), effects@) == next(*old(self), input),
    {
        if self.stopped {
            return Vec::new();
        }
        let mut pending = Pending::Ready;
        core::mem::swap(&mut pending, &mut self.pending);
        match (pending, input) {
            (Pending::Ready, WorkerInput::Command(c)) => self.command(c),
            (Pending::Ready, WorkerInput::Hotkey(e)) => self.hotkey(e),
            (Pending::Ready, WorkerInput::CommandsClosed) => {
                self.stopped = true;
                vec![WorkerEffect::Exit]
            },
            (Pending::StartupInit, WorkerInput::RuntimeInitialized(r)) => match r {
                Ok(_) => {
                    self.runtime = Some(RuntimeModel {
                        state: SessionState::Idle,
                        auto_paste: self.config.auto_paste,
                        recording: false,
                    });
                    vec![
                        WorkerEffect::CommitRuntime,
                        WorkerEffect::Notify(WorkerEvent::Status(AppStatus::Idle)),
                    ]
                },
                Err(m) => Self::fail_init(m),
            },
            (Pending::ToggleInit, WorkerInput::RuntimeInitialized(r)) => match r {
                Ok(_) => {
                    self.runtime = Some(RuntimeModel {
                        state: SessionState::Idle,
                        auto_paste: self.config.auto_paste,
                        recording: false,
                    });
                    self.pending = Pending::StartRecording;
                    vec![
                        WorkerEffect::CommitRuntime,
                        WorkerEffect::Notify(WorkerEvent::Status(AppStatus::Idle)),
                        WorkerEffect::StartRecording,
                    ]
                },
                Err(m) => Self::fail_init(m),
            },
            (Pending::ModelInit { previous_size }, WorkerInput::RuntimeInitialized(r)) => match r {
                Ok(_) => {
                    self.runtime = Some(RuntimeModel {
                        state: SessionState::Idle,
                        auto_paste: self.config.auto_paste,
                        recording: false,
                    });
                    vec![
                        WorkerEffect::CommitRuntime,
                        WorkerEffect::Notify(WorkerEvent::Status(AppStatus::Idle)),
                        WorkerEffect::Notify(WorkerEvent::ModelSizeChanged(self.config.model_size)),
                    ]
                },
                Err(m) => {
                    self.config.model_size = previous_size;
                    vec![
                        WorkerEffect::Notify(WorkerEvent::Error(WorkerError::Failed(m))),
                        WorkerEffect::Notify(WorkerEvent::Status(AppStatus::Error)),
                        WorkerEffect::Notify(WorkerEvent::ModelSizeChanged(previous_size)),
                    ]
                },
            },
            (Pending::StartRecording, WorkerInput::RecordingStarted(r)) => match r {
                Ok(_) => {
                    if let Some(rt) = self.runtime {
                        self.runtime = Some(RuntimeModel {
                            state: SessionState::Recording,
                            recording: true,
                            ..rt
                        });
                    }
                    vec![
                        WorkerEffect::Notify(WorkerEvent::Status(AppStatus::Listening)),
                        WorkerEffect::PlaySound(SoundCue::ListeningStarted),
                    ]
                },
                Err(m) => self.fail_session(m),
            },
            (Pending::StopRecording, WorkerInput::RecordingStopped { has_signal }) => {
                if has_signal {
                    self.pending = Pending::Transcribe;
                    vec![WorkerEffect::Transcribe]
                } else {
                    vec![WorkerEffect::Notify(WorkerEvent::Status(AppStatus::Idle))]
                }
            },
            (Pending::Transcribe, WorkerInput::Transcribed(r)) => match r {
                Ok(text) => {
                    if text.as_str().unicode_len() == 0 {
                        vec![WorkerEffect::Notify(WorkerEvent::Status(AppStatus::Idle))]
                    } else {
                        let copy = text.clone();
                        self.pending = Pending::Copy { transcript: text };
                        vec![WorkerEffect::CopyToClipboard(copy)]
                    }
                },
                Err(m) => self.fail_session(m),
            },
            (Pending::Copy { transcript }, WorkerInput::Copied(r)) => match r {
                Ok(_) => self.copied(transcript),
                Err(m) => self.fail_session(m),
            },
            (p, _) => {
                self.pending = p;
                Vec::new()
            },
        }
    }

    /// Reports a transcript that is on the clipboard.
    fn copied(&self, transcript: String) -> (effects: Vec<WorkerEffect>)
        ensures
            effects@ == copied_effects(self.runtime, transcript),
    {
        let auto_paste = match self.runtime {
            Some(rt) => rt.auto_paste,
            None => false,
        };
        let count = transcript.as_str().unicode_len();
        let mut effects: Vec<WorkerEffect> = Vec::new();
        if auto_paste {
            effects.push(WorkerEffect::Notify(WorkerEvent::PasteRequested));
        }
        effects.push(WorkerEffect::Notify(WorkerEvent::TranscriptReady(count)));
        effects.push(WorkerEffect::Notify(WorkerEvent::Status(AppStatus::Idle)));
        if !auto_paste {
            effects.push(WorkerEffect::PrintTranscript(transcript));
        }
        proof {
            let paste: Seq<WorkerEffect> = if auto_paste {
                seq![WorkerEffect::Notify(WorkerEvent::PasteRequested)]
            } else {
                seq![]
            };
            assert(effects@.take(paste.len() + 2int) =~= paste + seq![
                WorkerEffect::Notify(WorkerEvent::TranscriptReady(count)),
                WorkerEffect::Notify(WorkerEvent::Status(AppStatus::Idle)),
            ]);
        }
        assert(effects@ =~= copied_effects(self.runtime, transcript));
        effects
    }
}


/// Menu item id of the toggle entry.
pub const MENU_ID_TOGGLE: &'static str = "toggle";
/// Menu item id of the settings entry.
pub const MENU_ID_SETTINGS: &'static str = "settings";
/// Menu item id of the permission diagnostics entry.
pub const MENU_ID_DIAGNOSE_PERMISSIONS: &'static str = "diagnose_permissions";
/// Menu item id of the quit entry.
pub const MENU_ID_QUIT: &'static str = "quit";

/// What a tray menu click asks for.
#[derive(Debug, Clone, Copy, PartialEq, Eq, Structural)]
pub enum MenuChoice {
    OpenSettings,
    DiagnosePermissions,
    ToggleRecording,
    Quit,
    /// A click on an item without an action.
    Ignore,
}

/// The choice a menu item id stands for.
pub open spec fn menu_choice(id: Seq<char>) -> MenuChoice {
    if id == "settings"@ {
        MenuChoice::OpenSettings
    } else if id == "diagnose_permissions"@ {
        MenuChoice::DiagnosePermissions
    } else if id == "toggle"@ {
        MenuChoice::ToggleRecording
    } else if id == "quit"@ {
        MenuChoice::Quit
    } else {
        MenuChoice::Ignore
    }
}

/// Maps a tray menu item id to what it asks for.
pub fn menu_choice_for_id(id: &str) -> (c: MenuChoice)
    ensures
        c == menu_choice(id@),
{
    if same_text(id, MENU_ID_SETTINGS) {
        MenuChoice::OpenSettings
    } else if same_text(id, MENU_ID_DIAGNOSE_PERMISSIONS) {
        MenuChoice::DiagnosePermissions
    } else if same_text(id, MENU_ID_TOGGLE) {
        MenuChoice::ToggleRecording
    } else if same_text(id, MENU_ID_QUIT) {
        MenuChoice::Quit
    } else {
        MenuChoice::Ignore
    }
}

/// The worker command a settings-window action becomes.
pub open spec fn settings_command(action: SettingsAction) -> WorkerCommand {
    match action {
        SettingsAction::UseDefaultHotkey => WorkerCommand::SetHotkeyBinding(
            HotkeyBinding::CommandTap(CommandKeySide::Right),
        ),
        SettingsAction::CaptureHotkey => WorkerCommand::BeginHotkeyCapture,
        SettingsAction::SetModelSize(m) => WorkerCommand::SetModelSize(m),
    }
}

/// Translates an action posted from the native settings window into the
/// command forwarded to the worker.
pub fn handle_settings_action(action: SettingsAction) -> (c: WorkerCommand)
    ensures
        c == settings_command(action),
{
    match action {
        SettingsAction::UseDefaultHotkey => WorkerCommand::SetHotkeyBinding(
            HotkeyBinding::default_command_tap(),
        ),
        SettingsAction::CaptureHotkey => WorkerCommand::BeginHotkeyCapture,
        SettingsAction::SetModelSize(model_size) => WorkerCommand::SetModelSize(model_size),
    }
}

/// The command the main loop sends back to the worker for a notification: a
/// captured combination is applied at once.
pub fn auto_apply_command(event: &WorkerEvent) -> (c: Option<WorkerCommand>)
    ensures
        match *event {
            WorkerEvent::HotkeyCaptureCompleted(h) => c == Some(
                WorkerCommand::SetHotkeyBinding(HotkeyBinding::KeyCombo(h)),
            ),
            _ => c is None,
        },
{
    match event {
        WorkerEvent::HotkeyCaptureCompleted(h) => Some(
            WorkerCommand::SetHotkeyBinding(HotkeyBinding::KeyCombo(*h)),
        ),
        _ => None,
    }
}

/// Applies worker-driven state changes to the settings window.
pub fn sync_settings_window(settings_window: &mut SettingsWindow, event: &WorkerEvent)
    ensures
        match *event {
            WorkerEvent::Error(e) => {
                &&& final(settings_window).state.status_text matches Some(t) && t@ == "Error: "@
                    + worker_error_text(e)
                &&& final(settings_window).state.hotkey_binding == old(settings_window).state.hotkey_binding
                &&& final(settings_window).state.model_size == old(settings_window).state.model_size
                &&& final(settings_window).state.capture_stage == old(settings_window).state.capture_stage
            },
            WorkerEvent::HotkeyCaptureStarted => {
                &&& final(settings_window).state.capture_stage == crate::settings_window::CaptureStage::Capturing
                &&& final(settings_window).state.status_text matches Some(t) && t@ == CAPTURE_HINT_TEXT@
                &&& final(settings_window).state.hotkey_binding == old(settings_window).state.hotkey_binding
                &&& final(settings_window).state.model_size == old(settings_window).state.model_size
            },
            WorkerEvent::HotkeyCaptureCompleted(h) => {
                &&& final(settings_window).state.hotkey_binding == HotkeyBinding::KeyCombo(h)
                &&& final(settings_window).state.capture_stage == crate::settings_window::CaptureStage::Idle
                &&& final(settings_window).state.status_text is None
                &&& final(settings_window).state.model_size == old(settings_window).state.model_size
            },
            WorkerEvent::HotkeyCaptureCancelled => {
                &&& final(settings_window).state.hotkey_binding == old(settings_window).state.hotkey_binding
                &&& final(settings_window).state.capture_stage == crate::settings_window::CaptureStage::Idle
                &&& final(settings_window).state.status_text is None
                &&& final(settings_window).state.model_size == old(settings_window).state.model_size
            },
            WorkerEvent::HotkeyBindingChanged(b) => {
                &&& final(settings_window).state.hotkey_binding == b
                &&& final(settings_window).state.capture_stage == crate::settings_window::CaptureStage::Idle
                &&& final(settings_window).state.status_text is None
                &&& final(settings_window).state.model_size == old(settings_window).state.model_size
            },
            WorkerEvent::ModelSizeChanged(m) => {
                &&& final(settings_window).state.model_size == m
                &&& final(settings_window).state.hotkey_binding == old(settings_window).state.hotkey_binding
                &&& final(settings_window).state.capture_stage == old(settings_window).state.capture_stage
                &&& old(settings_window).state.capture_stage == crate::settings_window::CaptureStage::Idle
                    ==> final(settings_window).state.status_text is None
                &&& old(settings_window).state.capture_stage == crate::settings_window::CaptureStage::Capturing
                    ==> final(settings_window).state.status_text == old(settings_window).state.status_text
            },
            _ => final(settings_window).state == old(settings_window).state,
        },
{
    match event {
        WorkerEvent::Error(e) => {
            let m = e.message();
            settings_window.show_error(m.as_str());
        },
        WorkerEvent::HotkeyCaptureStarted => settings_window.begin_hotkey_capture(),
        WorkerEvent::HotkeyCaptureCompleted(h) => settings_window.show_captured_hotkey(*h),
        WorkerEvent::HotkeyCaptureCancelled => settings_window.cancel_hotkey_capture(),
        WorkerEvent::HotkeyBindingChanged(b) => settings_window.set_hotkey_binding(*b),
        WorkerEvent::ModelSizeChanged(m) => settings_window.set_model_size(*m),
        WorkerEvent::Status(_) | WorkerEvent::PasteRequested | WorkerEvent::TranscriptReady(_) => {},
    }
}


/// Every input keeps the worker's invariant.
pub proof fn law_worker_invariant(w: Worker, input: WorkerInput)
    requires
        w.wf(),
    ensures
        next(w, input).0.wf(),
{
}

/// A worker that has been told to quit ignores everything afterwards.
pub proof fn law_stopped_worker_is_inert(w: Worker, input: WorkerInput)
    requires
        w.stopped,
    ensures
        next(w, input) == (w, Seq::<WorkerEffect>::empty()),
{
}

/// Quitting a ready worker stops it and ends the loop.
pub proof fn law_quit_stops(w: Worker)
    requires
        !w.stopped,
        w.pending == Pending::Ready,
    ensures
        next(w, WorkerInput::Command(WorkerCommand::Quit)).0.stopped,
        next(w, WorkerInput::Command(WorkerCommand::Quit)).1 == seq![WorkerEffect::Exit],
        next(w, WorkerInput::CommandsClosed).0.stopped,
        next(w, WorkerInput::CommandsClosed).1 == seq![WorkerEffect::Exit],
{
}

/// A model change asked for during a recording is refused: the worker is
/// unchanged, and the user is told why and which model stays active.
pub proof fn law_no_model_change_while_recording(w: Worker, m: ModelSize)
    requires
        !w.stopped,
        w.pending == Pending::Ready,
        w.runtime matches Some(rt) && rt.state == SessionState::Recording,
        m != w.config.model_size,
    ensures
        next(w, WorkerInput::Command(WorkerCommand::SetModelSize(m))).0 == w,
        next(w, WorkerInput::Command(WorkerCommand::SetModelSize(m))).1 == seq![
            WorkerEffect::Notify(WorkerEvent::Error(WorkerError::StopRecordingFirst)),
            WorkerEffect::Notify(WorkerEvent::ModelSizeChanged(w.config.model_size)),
        ],
{
}

/// A model change whose reload fails leaves the configuration, the runtime
/// and the binding as they were, and reports the model still in use.
pub proof fn law_failed_reload_restores(w: Worker, m: ModelSize, message: String)
    requires
        !w.stopped,
        w.pending == Pending::Ready,
        !(w.runtime matches Some(rt) && rt.state == SessionState::Recording),
        m != w.config.model_size,
    ensures
        ({
            let (w1, _) = next(w, WorkerInput::Command(WorkerCommand::SetModelSize(m)));
            let (w2, effects) = next(w1, WorkerInput::RuntimeInitialized(Err(message)));
            &&& w2.config == w.config
            &&& w2.runtime == w.runtime
            &&& w2.binding == w.binding
            &&& w2.pending == Pending::Ready
            &&& effects.last() == WorkerEffect::Notify(WorkerEvent::ModelSizeChanged(w.config.model_size))
            &&& !effects.contains(WorkerEffect::CommitRuntime)
        }),
{
    let (w1, _) = next(w, WorkerInput::Command(WorkerCommand::SetModelSize(m)));
    let (w2, effects) = next(w1, WorkerInput::RuntimeInitialized(Err(message)));
    assert(w2.config == w.config);
    assert(!effects.contains(WorkerEffect::CommitRuntime)) by {
        if effects.contains(WorkerEffect::CommitRuntime) {
            let i = choose|i: int| 0 <= i < effects.len() && effects[i] == WorkerEffect::CommitRuntime;
        }
    }
}

/// A successful reload switches to the new model with a fresh idle runtime.
pub proof fn law_reload_switches_model(w: Worker, m: ModelSize)
    requires
        !w.stopped,
        w.pending == Pending::Ready,
        !(w.runtime matches Some(rt) && rt.state == SessionState::Recording),
        m != w.config.model_size,
    ensures
        ({
            let (w1, e1) = next(w, WorkerInput::Command(WorkerCommand::SetModelSize(m)));
            let (w2, e2) = next(w1, WorkerInput::RuntimeInitialized(Ok(())));
            &&& e1.contains(WorkerEffect::InitializeRuntime(m))
            &&& w2.config.model_size == m
            &&& w2.runtime == Some(fresh_runtime(w.config.auto_paste))
            &&& w2.pending == Pending::Ready
            &&& e2 == seq![
                WorkerEffect::CommitRuntime,
                WorkerEffect::Notify(WorkerEvent::Status(AppStatus::Idle)),
                WorkerEffect::Notify(WorkerEvent::ModelSizeChanged(m)),
            ]
        }),
{
    let (w1, e1) = next(w, WorkerInput::Command(WorkerCommand::SetModelSize(m)));
    assert(e1[1] == WorkerEffect::InitializeRuntime(m));
}

/// Toggling an idle session starts recording once the microphone opens, and
/// toggling again closes the stream and processes the audio.
pub proof fn law_toggle_starts_then_stops(w: Worker)
    requires
        w.wf(),
        !w.stopped,
        w.pending == Pending::Ready,
        w.runtime matches Some(rt) && rt.state == SessionState::Idle,
    ensures
        ({
            let (w1, e1) = next(w, WorkerInput::Hotkey(HotkeyEvent::ToggleRecording));
            let (w2, e2) = next(w1, WorkerInput::RecordingStarted(Ok(())));
            let (w3, e3) = next(w2, WorkerInput::Hotkey(HotkeyEvent::ToggleRecording));
            &&& e1 == seq![WorkerEffect::StartRecording]
            &&& w2.runtime matches Some(rt2) && rt2.state == SessionState::Recording && rt2.recording
            &&& e2[0] == WorkerEffect::Notify(WorkerEvent::Status(AppStatus::Listening))
            &&& w3.runtime matches Some(rt3) && rt3.state == SessionState::Idle && !rt3.recording
            &&& w3.pending == Pending::StopRecording
            &&& e3 == seq![
                WorkerEffect::Notify(WorkerEvent::Status(AppStatus::Processing)),
                WorkerEffect::PlaySound(SoundCue::ListeningStopped),
                WorkerEffect::StopRecording,
            ]
        }),
{
}

/// A recording that fails to start is reported and leaves the session idle
/// with no open stream.
pub proof fn law_failed_start_returns_to_idle(w: Worker, message: String)
    requires
        w.wf(),
        !w.stopped,
        w.pending == Pending::StartRecording,
    ensures
        ({
            let (w1, e1) = next(w, WorkerInput::RecordingStarted(Err(message)));
            &&& w1.runtime matches Some(rt) && rt.state == SessionState::Idle && !rt.recording
            &&& w1.pending == Pending::Ready
            &&& e1[0] == WorkerEffect::Notify(WorkerEvent::Error(WorkerError::Failed(message)))
            &&& e1.last() == WorkerEffect::Notify(WorkerEvent::Status(AppStatus::Idle))
        }),
{
}

/// A hotkey binding change always ends with the new binding reported, and
/// the listener is switched exactly when the binding actually changes.
pub proof fn law_binding_change(w: Worker, b: HotkeyBinding)
    requires
        w.wf(),
        !w.stopped,
        w.pending == Pending::Ready,
    ensures
        ({
            let (w1, e1) = next(w, WorkerInput::Command(WorkerCommand::SetHotkeyBinding(b)));
            &&& w1.binding == b
            &&& e1.last() == WorkerEffect::Notify(WorkerEvent::HotkeyBindingChanged(b))
            &&& e1.contains(WorkerEffect::SetListenerBinding(b)) == (w.binding != b)
            &&& (b matches HotkeyBinding::CommandTap(side) ==> w1.config.command_key == side)
        }),
{
    let (w1, e1) = next(w, WorkerInput::Command(WorkerCommand::SetHotkeyBinding(b)));
    if w.binding != b {
        assert(e1[0] == WorkerEffect::SetListenerBinding(b));
    } else {
        if e1.contains(WorkerEffect::SetListenerBinding(b)) {
            let i = choose|i: int| 0 <= i < e1.len() && e1[i] == WorkerEffect::SetListenerBinding(b);
        }
    }
}

/// A copied transcript is reported with its exact length in characters; it
/// is pasted when auto-paste is on and printed otherwise.
pub proof fn law_copied_transcript_reported(w: Worker, transcript: String)
    requires
        w.wf(),
        !w.stopped,
        w.pending == (Pending::Copy { transcript }),
    ensures
        ({
            let (w1, e1) = next(w, WorkerInput::Copied(Ok(())));
            &&& w1.pending == Pending::Ready
            &&& e1.contains(WorkerEffect::Notify(WorkerEvent::TranscriptReady(transcript@.len() as usize)))
            &&& e1.contains(WorkerEffect::Notify(WorkerEvent::PasteRequested)) == w.config.auto_paste
            &&& e1.contains(WorkerEffect::PrintTranscript(transcript)) == !w.config.auto_paste
        }),
{
    let (w1, e1) = next(w, WorkerInput::Copied(Ok(())));
    let ready = WorkerEffect::Notify(WorkerEvent::TranscriptReady(transcript@.len() as usize));
    let paste = WorkerEffect::Notify(WorkerEvent::PasteRequested);
    let print = WorkerEffect::PrintTranscript(transcript);
    if w.config.auto_paste {
        assert(e1[0] == paste);
        assert(e1[1] == ready);
        if e1.contains(print) {
            let i = choose|i: int| 0 <= i < e1.len() && e1[i] == print;
        }
    } else {
        assert(e1[0] == ready);
        assert(e1[2] == print);
        if e1.contains(paste) {
            let i = choose|i: int| 0 <= i < e1.len() && e1[i] == paste;
        }
    }
}

} // verus!
