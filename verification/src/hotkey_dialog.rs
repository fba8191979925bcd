//! Texts and button handling of the dialogs that configure the global hotkey.

use vstd::prelude::*;
use crate::hotkey::{HotkeyBinding, binding_description, describe_hotkey_binding};
use crate::keys::{Hotkey, hotkey_text, hotkey_display};
use crate::startup::same_text;

verus! {

/// Action chosen from the initial hotkey setup dialog.
#[derive(Debug, Clone, Copy, PartialEq, Eq, Structural)]
pub enum HotkeySetupAction {
    /// Leave the current binding unchanged.
    Cancel,
    /// Switch back to the default right-command tap.
    UseDefaultCommandTap,
    /// Arm capture mode for a custom key combination.
    CaptureCustomCombo,
}

/// Action chosen after a custom hotkey combination has been captured.
#[derive(Debug, Clone, Copy, PartialEq, Eq, Structural)]
pub enum HotkeyConfirmationAction {
    /// Leave the current binding unchanged.
    Cancel,
    /// Restart capture mode and wait for another combination.
    RetryCapture,
    /// Apply the captured combination as the active binding.
    UseCapturedHotkey,
}

/// The setup action of a pressed button; a dismissed dialog cancels.
pub open spec fn setup_action(button: Option<Seq<char>>) -> HotkeySetupAction {
    match button {
        Some(b) => if b == "Use Default"@ {
            HotkeySetupAction::UseDefaultCommandTap
        } else if b == "Capture Combo"@ {
            HotkeySetupAction::CaptureCustomCombo
        } else {
            HotkeySetupAction::Cancel
        },
        None => HotkeySetupAction::Cancel,
    }
}

/// The confirmation action of a pressed button; a dismissed dialog cancels.
pub open spec fn confirmation_action(button: Option<Seq<char>>) -> HotkeyConfirmationAction {
    match button {
        Some(b) => if b == "Retry"@ {
            HotkeyConfirmationAction::RetryCapture
        } else if b == "Use Hotkey"@ {
            HotkeyConfirmationAction::UseCapturedHotkey
        } else {
            HotkeyConfirmationAction::Cancel
        },
        None => HotkeyConfirmationAction::Cancel,
    }
}

/// Maps the button returned by the setup dialog to an action.
pub fn setup_action_for_button(button: Option<&str>) -> (a: HotkeySetupAction)
    ensures
        a == setup_action(match button { Some(b) => Some(b@), None => None }),
{
    match button {
        Some(b) => if same_text(b, "Use Default") {
            HotkeySetupAction::UseDefaultCommandTap
        } else if same_text(b, "Capture Combo") {
            HotkeySetupAction::CaptureCustomCombo
        } else {
            HotkeySetupAction::Cancel
        },
        None => HotkeySetupAction::Cancel,
    }
}

/// Maps the button returned by the confirmation dialog to an action.
pub fn confirmation_action_for_button(button: Option<&str>) -> (a: HotkeyConfirmationAction)
    ensures
        a == confirmation_action(match button { Some(b) => Some(b@), None => None }),
{
    match button {
        Some(b) => if same_text(b, "Retry") {
            HotkeyConfirmationAction::RetryCapture
        } else if same_text(b, "Use Hotkey") {
            HotkeyConfirmationAction::UseCapturedHotkey
        } else {
            HotkeyConfirmationAction::Cancel
        },
        None => HotkeyConfirmationAction::Cancel,
    }
}

/// The body of the setup dialog.
pub open spec fn setup_message(binding: HotkeyBinding) -> Seq<char> {
    "Current hotkey: "@ + binding_description(binding)
        + "\n\nChoose how to update the global hotkey.\n\nUse Default resets to Right Command Tap.\nCapture Combo waits for the next shortcut you press. Press Escape to cancel capture.\n\nIf the hotkey still does not respond, use Diagnose Permissions... from the tray menu."@
}

/// The body of the confirmation dialog.
pub open spec fn confirmation_message(binding: HotkeyBinding, captured: Hotkey) -> Seq<char> {
    "Captured hotkey: "@ + hotkey_display(captured.modifiers, captured.key) + "\nCurrent hotkey: "@
        + binding_description(binding) + "\n\nUse this hotkey for start/stop listening?"@
}

/// Builds the user-facing copy for the initial hotkey setup dialog.
pub fn build_hotkey_setup_message(current_binding: &HotkeyBinding) -> (m: String)
    ensures
        m@ == setup_message(*current_binding),
{
    let mut m = String::from_str("Current hotkey: ");
    let d = describe_hotkey_binding(current_binding);
    m.append(d.as_str());
    m.append(
        "\n\nChoose how to update the global hotkey.\n\nUse Default resets to Right Command Tap.\nCapture Combo waits for the next shortcut you press. Press Escape to cancel capture.\n\nIf the hotkey still does not respond, use Diagnose Permissions... from the tray menu.",
    );
    m
}

/// Builds the user-facing copy for the hotkey confirmation dialog.
pub fn build_hotkey_confirmation_message(current_binding: &HotkeyBinding, captured_hotkey: Hotkey) -> (m: String)
    ensures
        m@ == confirmation_message(*current_binding, captured_hotkey),
{
    let mut m = String::from_str("Captured hotkey: ");
    let c = hotkey_text(&captured_hotkey);
    m.append(c.as_str());
    m.append("\nCurrent hotkey: ");
    let d = describe_hotkey_binding(current_binding);
    m.append(d.as_str());
    m.append("\n\nUse this hotkey for start/stop listening?");
    m
}

} // verus!
