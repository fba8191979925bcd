//! State of the settings window: the hotkey row, the capture hint, the
//! model popup and inline errors.

use vstd::prelude::*;
use crate::hotkey::{HotkeyBinding, binding_description, describe_hotkey_binding};
use crate::keys::Hotkey;
use crate::model::ModelSize;

verus! {

/// Hint shown while the listener waits for a new combination.
pub const CAPTURE_HINT_TEXT: &'static str = "Press the shortcut now. Press Escape to cancel capture.";
/// Note shown under the model popup.
pub const MODEL_NOTE_TEXT: &'static str = "Larger models are slower and may download the first time you pick them.";

/// User intent emitted from the settings window.
#[derive(Debug, Clone, Copy, PartialEq, Eq, Structural)]
pub enum SettingsAction {
    /// Restore the default right-command-tap binding.
    UseDefaultHotkey,
    /// Begin one-shot custom hotkey capture.
    CaptureHotkey,
    /// Switch the active Whisper model preset.
    SetModelSize(ModelSize),
}

/// Short-lived capture state shown inside the settings window.
#[derive(Debug, Clone, Copy, PartialEq, Eq, Structural)]
pub enum CaptureStage {
    Idle,
    Capturing,
}

/// Stateful data mirrored into the native controls.
#[derive(Debug, Clone, PartialEq, Eq)]
pub struct SettingsState {
    pub hotkey_binding: HotkeyBinding,
    pub model_size: ModelSize,
    pub capture_stage: CaptureStage,
    pub status_text: Option<String>,
}

/// The text of the hotkey row.
pub open spec fn hotkey_label_text(s: SettingsState) -> Seq<char> {
    if s.capture_stage == CaptureStage::Capturing {
        "Listening..."@
    } else {
        binding_description(s.hotkey_binding)
    }
}

impl SettingsState {
    /// Builds the initial window state from the app configuration.
    pub fn new(initial_model_size: ModelSize, initial_hotkey_binding: &HotkeyBinding) -> (s: Self)
        ensures
            s.hotkey_binding == *initial_hotkey_binding,
            s.model_size == initial_model_size,
            s.capture_stage == CaptureStage::Idle,
            s.status_text is None,
    {
        SettingsState {
            hotkey_binding: *initial_hotkey_binding,
            model_size: initial_model_size,
            capture_stage: CaptureStage::Idle,
            status_text: None,
        }
    }

    /// Formats the active hotkey for UI display.
    pub fn hotkey_label(&self) -> (s: String)
        ensures
            s@ == hotkey_label_text(*self),
    {
        match self.capture_stage {
            CaptureStage::Capturing => String::from_str("Listening..."),
            CaptureStage::Idle => describe_hotkey_binding(&self.hotkey_binding),
        }
    }

    /// Returns the transient inline status text, if any.
    pub fn status_label(&self) -> (s: Option<&str>)
        ensures
            match self.status_text {
                Some(t) => s matches Some(x) && x@ == t@,
                None => s is None,
            },
    {
        match &self.status_text {
            Some(t) => Some(t.as_str()),
            None => None,
        }
    }
}

/// The settings window's state, as the native window shows it.
#[derive(Debug)]
pub struct SettingsWindow {
    pub state: SettingsState,
}

impl SettingsWindow {
    /// Creates the controller with the initial app state.
    pub fn new(initial_model_size: ModelSize, initial_hotkey_binding: &HotkeyBinding) -> (w: Self)
        ensures
            w.state.hotkey_binding == *initial_hotkey_binding,
            w.state.model_size == initial_model_size,
            w.state.capture_stage == CaptureStage::Idle,
            w.state.status_text is None,
    {
        SettingsWindow { state: SettingsState::new(initial_model_size, initial_hotkey_binding) }
    }

    /// Updates the hotkey preview after a successful binding change.
    pub fn set_hotkey_binding(&mut self, binding: HotkeyBinding)
        ensures
            final(self).state.hotkey_binding == binding,
            final(self).state.model_size == old(self).state.model_size,
            final(self).state.capture_stage == CaptureStage::Idle,
            final(self).state.status_text is None,
    {
        self.state.hotkey_binding = binding;
        self.state.capture_stage = CaptureStage::Idle;
        self.state.status_text = None;
    }

    /// Shows the in-window capture hint while the listener waits for input.
    pub fn begin_hotkey_capture(&mut self)
        ensures
            final(self).state.hotkey_binding == old(self).state.hotkey_binding,
            final(self).state.model_size == old(self).state.model_size,
            final(self).state.capture_stage == CaptureStage::Capturing,
            final(self).state.status_text matches Some(t) && t@ == CAPTURE_HINT_TEXT@,
    {
        self.state.capture_stage = CaptureStage::Capturing;
        self.state.status_text = Some(String::from_str(CAPTURE_HINT_TEXT));
    }

    /// Applies the captured shortcut to the active hotkey row.
    pub fn show_captured_hotkey(&mut self, hotkey: Hotkey)
        ensures
            final(self).state.hotkey_binding == HotkeyBinding::KeyCombo(hotkey),
            final(self).state.model_size == old(self).state.model_size,
            final(self).state.capture_stage == CaptureStage::Idle,
            final(self).state.status_text is None,
    {
        self.state.hotkey_binding = HotkeyBinding::KeyCombo(hotkey);
        self.state.capture_stage = CaptureStage::Idle;
        self.state.status_text = None;
    }

    /// Restores the idle state after capture is cancelled by Escape.
    pub fn cancel_hotkey_capture(&mut self)
        ensures
            final(self).state.hotkey_binding == old(self).state.hotkey_binding,
            final(self).state.model_size == old(self).state.model_size,
            final(self).state.capture_stage == CaptureStage::Idle,
            final(self).state.status_text is None,
    {
        self.state.capture_stage = CaptureStage::Idle;
        self.state.status_text = None;
    }

    /// Updates the selected Whisper model in the window; an idle window also
    /// drops its status text, a capturing one keeps its hint.
    pub fn set_model_size(&mut self, model_size: ModelSize)
        ensures
            final(self).state.hotkey_binding == old(self).state.hotkey_binding,
            final(self).state.model_size == model_size,
            final(self).state.capture_stage == old(self).state.capture_stage,
            old(self).state.capture_stage == CaptureStage::Idle ==> final(self).state.status_text is None,
            old(self).state.capture_stage == CaptureStage::Capturing ==> final(self).state.status_text
                == old(self).state.status_text,
    {
        self.state.model_size = model_size;
        if self.state.capture_stage == CaptureStage::Idle {
            self.state.status_text = None;
        }
    }

    /// Shows an error message from the runtime or settings workflow.
    pub fn show_error(&mut self, message: &str)
        ensures
            final(self).state.hotkey_binding == old(self).state.hotkey_binding,
            final(self).state.model_size == old(self).state.model_size,
            final(self).state.capture_stage == old(self).state.capture_stage,
            final(self).state.status_text matches Some(t) && t@ == "Error: "@ + message@,
    {
        let mut t = String::from_str("Error: ");
        t.append(message);
        self.state.status_text = Some(t);
    }
}

/// Returns the display title used for a model-size option.
pub open spec fn model_title(model_size: ModelSize) -> Seq<char> {
    match model_size {
        ModelSize::Tiny => "Tiny"@,
        ModelSize::Base => "Base"@,
        ModelSize::Small => "Small"@,
        ModelSize::Medium => "Medium"@,
        ModelSize::Large => "Large"@,
    }
}

/// Returns the display title used for a model-size option.
pub fn model_size_title(model_size: ModelSize) -> (t: &'static str)
    ensures
        t@ == model_title(model_size),
{
    match model_size {
        ModelSize::Tiny => "Tiny",
        ModelSize::Base => "Base",
        ModelSize::Small => "Small",
        ModelSize::Medium => "Medium",
        ModelSize::Large => "Large",
    }
}

/// The position of a preset in the model popup.
pub open spec fn popup_index(model_size: ModelSize) -> isize {
    match model_size {
        ModelSize::Tiny => 0,
        ModelSize::Base => 1,
        ModelSize::Small => 2,
        ModelSize::Medium => 3,
        ModelSize::Large => 4,
    }
}

/// Returns the popup index used for a model-size option.
pub fn popup_index_for_model_size(model_size: ModelSize) -> (i: isize)
    ensures
        i == popup_index(model_size),
{
    match model_size {
        ModelSize::Tiny => 0,
        ModelSize::Base => 1,
        ModelSize::Small => 2,
        ModelSize::Medium => 3,
        ModelSize::Large => 4,
    }
}

/// The preset shown in a popup row, if the row exists.
pub open spec fn popup_model(index: isize) -> Option<ModelSize> {
    match index {
        0 => Some(ModelSize::Tiny),
        1 => Some(ModelSize::Base),
        2 => Some(ModelSize::Small),
        3 => Some(ModelSize::Medium),
        4 => Some(ModelSize::Large),
        _ => None,
    }
}

/// Parses a popup selection index back into a model-size preset.
pub fn model_size_from_popup_index(index: isize) -> (m: Option<ModelSize>)
    ensures
        m == popup_model(index),
{
    match index {
        0 => Some(ModelSize::Tiny),
        1 => Some(ModelSize::Base),
        2 => Some(ModelSize::Small),
        3 => Some(ModelSize::Medium),
        4 => Some(ModelSize::Large),
        _ => None,
    }
}

/// What the native controls display for a state.
#[derive(Debug)]
pub struct ControlsView {
    /// Text of the read-only hotkey field.
    pub hotkey_text: String,
    /// Inline status text; the label is hidden when there is none.
    pub status_text: Option<String>,
    /// Selected row of the model popup.
    pub selected_index: isize,
    /// Whether the reset and capture buttons accept clicks.
    pub buttons_enabled: bool,
    /// Title of the capture button.
    pub capture_title: &'static str,
}

/// Computes what the native controls show for a state: while capturing, the
/// buttons are disabled and the capture button says "Listening...".
pub fn controls_view(state: &SettingsState) -> (v: ControlsView)
    ensures
        v.hotkey_text@ == hotkey_label_text(*state),
        match state.status_text {
            Some(t) => v.status_text matches Some(x) && x@ == t@,
            None => v.status_text is None,
        },
        v.selected_index == popup_index(state.model_size),
        v.buttons_enabled == (state.capture_stage == CaptureStage::Idle),
        v.capture_title@ == (if state.capture_stage == CaptureStage::Idle {
            "Capture New Combo"@
        } else {
            "Listening..."@
        }),
{
    let status_text = match state.status_label() {
        Some(t) => Some(String::from_str(t)),
        None => None,
    };
    let idle = state.capture_stage == CaptureStage::Idle;
    ControlsView {
        hotkey_text: state.hotkey_label(),
        status_text,
        selected_index: popup_index_for_model_size(state.model_size),
        buttons_enabled: idle,
        capture_title: if idle { "Capture New Combo" } else { "Listening..." },
    }
}


/// Each preset has its own popup row among the first five, and reading the
/// row back gives the preset again; every other index selects nothing.
pub proof fn law_popup_round_trip(a: ModelSize, b: ModelSize, index: isize)
    ensures
        0 <= popup_index(a) <= 4,
        popup_index(a) == popup_index(b) ==> a == b,
        popup_model(popup_index(a)) == Some(a),
        popup_model(index) matches Some(m) ==> popup_index(m) == index,
        !(0 <= index <= 4) ==> popup_model(index) is None,
{
}

/// The titles of the model popup's rows, in the order they are added.
pub open spec fn popup_row_titles() -> Seq<Seq<char>> {
    seq!["Tiny"@, "Base"@, "Small"@, "Medium"@, "Large"@]
}

/// Each popup row selects the preset its title names: row `i` is the `i`-th
/// of Tiny, Base, Small, Medium, Large, and a preset is shown in the row
/// that carries its title.
pub proof fn law_popup_rows_match_titles(index: isize, m: ModelSize)
    ensures
        0 <= index < 5 ==> (popup_model(index) matches Some(p) && model_title(p) == popup_row_titles()[index as int]),
        popup_row_titles()[popup_index(m) as int] == model_title(m),
{
    reveal_strlit("Tiny");
    reveal_strlit("Base");
    reveal_strlit("Small");
    reveal_strlit("Medium");
    reveal_strlit("Large");
}

} // verus!
