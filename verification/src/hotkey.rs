//! Command-key tap detection, key-combination matching and the per-event
//! decisions of the global hotkey listener.

use vstd::prelude::*;
use crate::keys::{
    Hotkey, KeyEvent, pattern_matches, modifiers_match, same_key, is_escape_key, key_is_escape,
    hotkey_text, hotkey_display, CMD, CMD_LEFT, CMD_RIGHT, SHIFT, CTRL, OPT, FN,
};

verus! {

/// App-level signal emitted by the hotkey listener.
#[derive(Debug, Clone, Copy, PartialEq, Eq)]
pub enum HotkeyEvent {
    /// Toggle recording state.
    ToggleRecording,
    /// A key combination was captured while hotkey-capture mode was active.
    CapturedKeyCombo(Hotkey),
    /// Hotkey capture mode was cancelled by the user.
    CaptureCancelled,
}

/// Selects which command key side should trigger the hotkey tap.
#[derive(Debug, Clone, Copy, PartialEq, Eq, Structural)]
pub enum CommandKeySide {
    /// Trigger only on left command.
    Left,
    /// Trigger only on right command.
    Right,
    /// Trigger on either command key.
    Either,
}

impl CommandKeySide {
    /// Whether a changed-modifier mask is the configured command key.
    pub open spec fn accepts(self, changed: u32) -> bool {
        match self {
            CommandKeySide::Left => changed == CMD_LEFT,
            CommandKeySide::Right => changed == CMD_RIGHT,
            CommandKeySide::Either => changed == CMD_LEFT || changed == CMD_RIGHT,
        }
    }

    /// Returns true when the changed modifier matches the configured side.
    pub fn matches(self, changed: u32) -> (r: bool)
        ensures
            r == self.accepts(changed),
    {
        match self {
            CommandKeySide::Left => changed == CMD_LEFT,
            CommandKeySide::Right => changed == CMD_RIGHT,
            CommandKeySide::Either => changed == CMD_LEFT || changed == CMD_RIGHT,
        }
    }
}

/// Active hotkey binding mode.
#[derive(Debug, Clone, Copy, PartialEq, Eq)]
pub enum HotkeyBinding {
    /// Trigger on a command-key tap.
    CommandTap(CommandKeySide),
    /// Trigger on a key combination.
    KeyCombo(Hotkey),
}

impl HotkeyBinding {
    /// Returns the default binding used by the tray UI and installer.
    pub fn default_command_tap() -> (b: Self)
        ensures
            b == HotkeyBinding::CommandTap(CommandKeySide::Right),
    {
        HotkeyBinding::CommandTap(CommandKeySide::Right)
    }

    /// Structural equality of two bindings.
    pub fn same_as(&self, other: &HotkeyBinding) -> (r: bool)
        ensures
            r == (*self == *other),
    {
        match (self, other) {
            (HotkeyBinding::CommandTap(a), HotkeyBinding::CommandTap(b)) => *a == *b,
            (HotkeyBinding::KeyCombo(a), HotkeyBinding::KeyCombo(b)) => a.same_as(b),
            _ => false,
        }
    }
}

/// The display text of a binding.
pub open spec fn binding_description(binding: HotkeyBinding) -> Seq<char> {
    match binding {
        HotkeyBinding::CommandTap(CommandKeySide::Left) => "Left Command Tap"@,
        HotkeyBinding::CommandTap(CommandKeySide::Right) => "Right Command Tap"@,
        HotkeyBinding::CommandTap(CommandKeySide::Either) => "Either Command Tap"@,
        HotkeyBinding::KeyCombo(h) => "Custom ("@ + hotkey_display(h.modifiers, h.key) + ")"@,
    }
}

/// Formats the active hotkey binding for tray and dialog display.
pub fn describe_hotkey_binding(binding: &HotkeyBinding) -> (s: String)
    ensures
        s@ == binding_description(*binding),
{
    match binding {
        HotkeyBinding::CommandTap(CommandKeySide::Left) => String::from_str("Left Command Tap"),
        HotkeyBinding::CommandTap(CommandKeySide::Right) => String::from_str("Right Command Tap"),
        HotkeyBinding::CommandTap(CommandKeySide::Either) => String::from_str("Either Command Tap"),
        HotkeyBinding::KeyCombo(hotkey) => {
            let mut s = String::from_str("Custom (");
            let inner = hotkey_text(hotkey);
            s.append(inner.as_str());
            s.append(")");
            s
        },
    }
}

/// The side-insensitive form of a modifier mask: each group present on either
/// side becomes the two-sided group; `FN` is kept as it is.
pub open spec fn normalized(m: u32) -> u32 {
    (if m & CMD != 0 { CMD } else { 0u32 })
    | (if m & SHIFT != 0 { SHIFT } else { 0u32 })
    | (if m & CTRL != 0 { CTRL } else { 0u32 })
    | (if m & OPT != 0 { OPT } else { 0u32 })
    | (if m & FN == FN { FN } else { 0u32 })
}

/// Normalizes side-specific modifiers into generic modifier groups.
pub fn normalize_modifiers(modifiers: u32) -> (r: u32)
    ensures
        r == normalized(modifiers),
{
    let cmd: u32 = if modifiers & CMD != 0 { CMD } else { 0 };
    let shift: u32 = if modifiers & SHIFT != 0 { SHIFT } else { 0 };
    let ctrl: u32 = if modifiers & CTRL != 0 { CTRL } else { 0 };
    let opt: u32 = if modifiers & OPT != 0 { OPT } else { 0 };
    let fn_key: u32 = if modifiers & FN == FN { FN } else { 0 };
    cmd | shift | ctrl | opt | fn_key
}

/// Whether a key event fires a key-combination binding.
pub open spec fn combo_fires(combo: Hotkey, event: KeyEvent) -> bool {
    &&& event.is_key_down
    &&& event.key == combo.key
    &&& combo.key is Some
    &&& modifiers_match(combo.modifiers, event.modifiers)
}

/// Returns true when a key event matches a configured key-combination binding.
pub fn combo_matches_event(combo: &Hotkey, event: &KeyEvent) -> (r: bool)
    ensures
        r == combo_fires(*combo, *event),
{
    event.is_key_down && same_key(event.key, combo.key) && combo.key.is_some()
        && pattern_matches(combo.modifiers, event.modifiers)
}

/// Detects a short tap of the selected command key without chorded keys.
///
/// Times are nanoseconds on one monotonic clock.
#[derive(Debug, Clone, Copy)]
pub struct CommandTapDetector {
    pub command_key_side: CommandKeySide,
    pub max_tap_ns: u64,
    pub command_down: bool,
    pub chorded: bool,
    pub pressed_at: Option<u64>,
}

/// Time between two readings of a monotonic clock, zero when `now` is earlier.
pub open spec fn elapsed(pressed: u64, now: u64) -> int {
    if now >= pressed { now - pressed } else { 0 }
}

impl CommandTapDetector {
    /// The detector's internal invariant: a press time is recorded exactly
    /// while the command key is down, and only a held key can be chorded.
    pub open spec fn wf(self) -> bool {
        &&& self.command_down <==> self.pressed_at is Some
        &&& self.chorded ==> self.command_down
    }

    /// The detector state after one event, and whether it confirms a tap.
    pub open spec fn after(self, event: KeyEvent, now: u64) -> (CommandTapDetector, bool) {
        if event.changed_modifier is Some && self.command_key_side.accepts(
            event.changed_modifier->0,
        ) {
            if event.is_key_down {
                if !self.command_down {
                    (CommandTapDetector {
                        command_down: true,
                        chorded: false,
                        pressed_at: Some(now),
                        ..self
                    }, false)
                } else {
                    (self, false)
                }
            } else {
                let is_tap = self.command_down && !self.chorded && match self.pressed_at {
                    Some(p) => elapsed(p, now) <= self.max_tap_ns,
                    None => false,
                };
                (CommandTapDetector {
                    command_down: false,
                    chorded: false,
                    pressed_at: None,
                    ..self
                }, is_tap)
            }
        } else if self.command_down && (event.key is Some || event.changed_modifier is Some) {
            (CommandTapDetector { chorded: true, ..self }, false)
        } else {
            (self, false)
        }
    }

    /// Creates a detector with the configured tap window.
    pub fn new(command_key_side: CommandKeySide, max_tap_ns: u64) -> (d: Self)
        ensures
            d.wf(),
            d.command_key_side == command_key_side,
            d.max_tap_ns == max_tap_ns,
            !d.command_down,
            !d.chorded,
            d.pressed_at is None,
    {
        CommandTapDetector {
            command_key_side,
            max_tap_ns,
            command_down: false,
            chorded: false,
            pressed_at: None,
        }
    }

    /// Updates state with a keyboard event and returns a toggle when a tap is confirmed.
    pub fn on_event(&mut self, event: KeyEvent, now: u64) -> (r: Option<HotkeyEvent>)
        ensures
            *final(self) == old(self).after(event, now).0,
            r == (if old(self).after(event, now).1 {
                Some(HotkeyEvent::ToggleRecording)
            } else {
                None
            }),
            old(self).wf() ==> final(self).wf(),
    {
        if let Some(changed) = event.changed_modifier {
            if self.command_key_side.matches(changed) {
                if event.is_key_down {
                    if !self.command_down {
                        self.command_down = true;
                        self.chorded = false;
                        self.pressed_at = Some(now);
                    }
                    return None;
                }
                let within = match self.pressed_at {
                    Some(pressed) => {
                        let e: u64 = if now >= pressed { now - pressed } else { 0 };
                        e <= self.max_tap_ns
                    },
                    None => false,
                };
                let is_tap = self.command_down && !self.chorded && within;
                self.command_down = false;
                self.chorded = false;
                self.pressed_at = None;
                if is_tap {
                    return Some(HotkeyEvent::ToggleRecording);
                }
                return None;
            }
        }
        if self.command_down && (event.key.is_some() || event.changed_modifier.is_some()) {
            self.chorded = true;
        }
        None
    }
}

/// What the listener does after one event.
#[derive(Debug)]
pub struct ListenerStep {
    /// Whether the pending capture request is to be cleared.
    pub clear_capture: bool,
    /// Events to forward to the worker, in order.
    pub events: Vec<HotkeyEvent>,
}

/// The listener thread's own state between events.
#[derive(Debug, Clone, Copy)]
pub struct ListenerState {
    pub active_binding: HotkeyBinding,
    pub detector: CommandTapDetector,
    pub combo_armed: bool,
    pub max_tap_ns: u64,
}

/// The detector a listener uses for a binding: the binding's side for a tap,
/// the left side otherwise.
pub open spec fn detector_for(binding: HotkeyBinding, max_tap_ns: u64) -> CommandTapDetector {
    CommandTapDetector {
        command_key_side: match binding {
            HotkeyBinding::CommandTap(side) => side,
            HotkeyBinding::KeyCombo(_) => CommandKeySide::Left,
        },
        max_tap_ns,
        command_down: false,
        chorded: false,
        pressed_at: None,
    }
}

/// The events a capture-mode listener forwards for one event: an Escape
/// press cancels the capture, any other key press is captured with
/// side-insensitive modifiers, and everything else is ignored.
pub open spec fn capture_events(event: KeyEvent) -> Seq<HotkeyEvent> {
    if event.is_key_down && event.key is Some {
        if key_is_escape(event.key->0) {
            seq![HotkeyEvent::CaptureCancelled]
        } else {
            seq![
                HotkeyEvent::CapturedKeyCombo(
                    Hotkey { modifiers: normalized(event.modifiers), key: event.key },
                ),
            ]
        }
    } else {
        seq![]
    }
}

impl ListenerState {
    /// The listener's invariant: its detector is well formed and belongs to
    /// the active binding's side when that binding is a tap.
    pub open spec fn wf(self) -> bool {
        &&& self.detector.wf()
        &&& self.detector.max_tap_ns == self.max_tap_ns
        &&& (self.active_binding matches HotkeyBinding::CommandTap(side)
            ==> self.detector.command_key_side == side)
    }

    /// The listener state after an event outside capture mode, and whether
    /// the event toggles recording.
    pub open spec fn after(self, configured: HotkeyBinding, event: KeyEvent, now: u64) -> (ListenerState, bool) {
        let s = if configured != self.active_binding {
            ListenerState {
                active_binding: configured,
                combo_armed: true,
                detector: if configured is CommandTap {
                    detector_for(configured, self.max_tap_ns)
                } else {
                    self.detector
                },
                ..self
            }
        } else {
            self
        };
        match s.active_binding {
            HotkeyBinding::CommandTap(_) => {
                let (d, tap) = s.detector.after(event, now);
                (ListenerState { detector: d, ..s }, tap)
            },
            HotkeyBinding::KeyCombo(combo) => {
                if s.combo_armed && combo_fires(combo, event) {
                    (ListenerState { combo_armed: false, ..s }, true)
                } else if !s.combo_armed && (!modifiers_match(combo.modifiers, event.modifiers) || (
                !event.is_key_down && event.key == combo.key)) {
                    (ListenerState { combo_armed: true, ..s }, false)
                } else {
                    (s, false)
                }
            },
        }
    }

    /// The state a freshly (re)started listener begins with.
    pub fn new(binding: HotkeyBinding, max_tap_ns: u64) -> (s: Self)
        ensures
            s.wf(),
            s.active_binding == binding,
            s.combo_armed,
            s.max_tap_ns == max_tap_ns,
            s.detector == detector_for(binding, max_tap_ns),
    {
        let side = match binding {
            HotkeyBinding::CommandTap(side) => side,
            HotkeyBinding::KeyCombo(_) => CommandKeySide::Left,
        };
        ListenerState {
            active_binding: binding,
            detector: CommandTapDetector::new(side, max_tap_ns),
            combo_armed: true,
            max_tap_ns,
        }
    }

    /// Handles one key event.
    ///
    /// While a capture is requested the event only serves the capture: an
    /// Escape press cancels it, and any other key press is captured with
    /// side-insensitive modifiers. Otherwise the listener adopts the currently
    /// configured binding and checks the event against it.
    pub fn on_event(
        &mut self,
        capture_requested: bool,
        configured: HotkeyBinding,
        event: KeyEvent,
        now: u64,
    ) -> (step: ListenerStep)
        ensures
            capture_requested ==> {
                &&& *final(self) == *old(self)
                &&& step.events@ == capture_events(event)
                &&& step.clear_capture == (event.is_key_down && event.key is Some)
            },
            !capture_requested ==> {
                &&& *final(self) == old(self).after(configured, event, now).0
                &&& step.events@ == (if old(self).after(configured, event, now).1 {
                    seq![HotkeyEvent::ToggleRecording]
                } else {
                    seq![]
                })
                &&& !step.clear_capture
            },
            old(self).wf() ==> final(self).wf(),
    {
        let mut events: Vec<HotkeyEvent> = Vec::new();
        if capture_requested {
            let mut clear = false;
            if event.is_key_down {
                if let Some(key) = event.key {
                    clear = true;
                    if is_escape_key(key) {
                        events.push(HotkeyEvent::CaptureCancelled);
                    } else {
                        let normalized_modifiers = normalize_modifiers(event.modifiers);
                        let captured = Hotkey::new(normalized_modifiers, Some(key));
                        if let Ok(hotkey) = captured {
                            events.push(HotkeyEvent::CapturedKeyCombo(hotkey));
                        }
                    }
                }
            }
            assert(events@ == capture_events(event));
            return ListenerStep { clear_capture: clear, events };
        }
        if !configured.same_as(&self.active_binding) {
            self.active_binding = configured;
            self.combo_armed = true;
            if let HotkeyBinding::CommandTap(side) = configured {
                self.detector = CommandTapDetector::new(side, self.max_tap_ns);
            }
        }
        match self.active_binding {
            HotkeyBinding::CommandTap(_) => {
                if let Some(e) = self.detector.on_event(event, now) {
                    events.push(e);
                }
            },
            HotkeyBinding::KeyCombo(combo) => {
                if self.combo_armed && combo_matches_event(&combo, &event) {
                    self.combo_armed = false;
                    events.push(HotkeyEvent::ToggleRecording);
                } else if !self.combo_armed && (!pattern_matches(combo.modifiers, event.modifiers)
                    || (!event.is_key_down && same_key(event.key, combo.key))) {
                    self.combo_armed = true;
                }
            },
        }
        ListenerStep { clear_capture: false, events }
    }
}


/// Normalizing twice changes nothing: a normalized mask names whole groups only.
pub proof fn law_normalize_idempotent(m: u32)
    ensures
        normalized(normalized(m)) == normalized(m),
{
    assert(normalized(normalized(m)) == normalized(m)) by (bit_vector);
}

/// The left and right variants of a modifier normalize to the same group.
pub proof fn law_normalize_merges_sides(m: u32)
    ensures
        normalized(m | CMD_LEFT) == normalized(m | CMD_RIGHT),
        normalized(m | crate::keys::SHIFT_LEFT) == normalized(m | crate::keys::SHIFT_RIGHT),
        normalized(m | crate::keys::CTRL_LEFT) == normalized(m | crate::keys::CTRL_RIGHT),
        normalized(m | crate::keys::OPT_LEFT) == normalized(m | crate::keys::OPT_RIGHT),
{
    assert(normalized(m | 1) == normalized(m | 32)) by (bit_vector);
    assert(normalized(m | 2) == normalized(m | 64)) by (bit_vector);
    assert(normalized(m | 4) == normalized(m | 128)) by (bit_vector);
    assert(normalized(m | 8) == normalized(m | 256)) by (bit_vector);
}

/// While capturing, an Escape press cancels the capture and is never itself
/// captured; any other key press is captured, and nothing else is reported.
pub proof fn law_escape_cancels_capture(event: KeyEvent)
    ensures
        event.is_key_down && event.key is Some && key_is_escape(event.key->0) ==> capture_events(event)
            == seq![HotkeyEvent::CaptureCancelled],
        event.is_key_down && event.key is Some && !key_is_escape(event.key->0) ==> capture_events(event)
            == seq![HotkeyEvent::CapturedKeyCombo(Hotkey { modifiers: normalized(event.modifiers), key: event.key })],
        !(event.is_key_down && event.key is Some) ==> capture_events(event).len() == 0,
{
}

/// A combination captured from a key press fires on that same press.
pub proof fn law_captured_combo_fires(event: KeyEvent)
    requires
        event.is_key_down,
        event.key is Some,
    ensures
        combo_fires(Hotkey { modifiers: normalized(event.modifiers), key: event.key }, event),
{
    let m = event.modifiers;
    assert(modifiers_match(normalized(m), m)) by (bit_vector);
}

/// A tap detector toggles only when the configured command key is released
/// after a press it saw, with nothing chorded in between.
pub proof fn law_tap_only_on_release(d: CommandTapDetector, event: KeyEvent, now: u64)
    requires
        d.after(event, now).1,
    ensures
        event.changed_modifier matches Some(c) && d.command_key_side.accepts(c),
        !event.is_key_down,
        d.command_down,
        !d.chorded,
{
}

/// A press and a release of the configured command key, with nothing in
/// between, toggle exactly when the key was held no longer than the tap window.
pub proof fn law_tap_window(d: CommandTapDetector, press: KeyEvent, release: KeyEvent, t0: u64, t1: u64)
    requires
        d.wf(),
        !d.command_down,
        press.is_key_down,
        press.changed_modifier matches Some(c) && d.command_key_side.accepts(c),
        !release.is_key_down,
        release.changed_modifier matches Some(c) && d.command_key_side.accepts(c),
        t0 <= t1,
    ensures
        !d.after(press, t0).1,
        d.after(press, t0).0.after(release, t1).1 == (t1 - t0 <= d.max_tap_ns),
        !d.after(press, t0).0.after(release, t1).0.command_down,
{
}

/// Any key event while the command key is held makes the tap a chord, so
/// its release no longer toggles.
pub proof fn law_chord_cancels_tap(
    d: CommandTapDetector,
    press: KeyEvent,
    other: KeyEvent,
    release: KeyEvent,
    t0: u64,
    t1: u64,
    t2: u64,
)
    requires
        d.wf(),
        !d.command_down,
        press.is_key_down,
        press.changed_modifier matches Some(c) && d.command_key_side.accepts(c),
        other.key is Some,
        other.changed_modifier is None,
        !release.is_key_down,
        release.changed_modifier matches Some(c) && d.command_key_side.accepts(c),
    ensures
        !d.after(press, t0).0.after(other, t1).0.after(release, t2).1,
{
}

/// Once a key combination has fired, holding it (or anything else that keeps
/// the listener disarmed) fires nothing more until it is re-armed.
pub proof fn law_combo_fires_once(s: ListenerState, combo: Hotkey, event: KeyEvent, now: u64)
    requires
        s.active_binding == HotkeyBinding::KeyCombo(combo),
        !s.combo_armed,
    ensures
        !s.after(HotkeyBinding::KeyCombo(combo), event, now).1,
{
}

/// An armed combination fires on a matching press and disarms itself.
pub proof fn law_combo_fire_disarms(s: ListenerState, combo: Hotkey, event: KeyEvent, now: u64)
    requires
        s.active_binding == HotkeyBinding::KeyCombo(combo),
        s.combo_armed,
        combo_fires(combo, event),
    ensures
        s.after(HotkeyBinding::KeyCombo(combo), event, now).1,
        !s.after(HotkeyBinding::KeyCombo(combo), event, now).0.combo_armed,
{
}

/// A binding change reaches the listener with its next event: it adopts the
/// new binding, re-arms combinations and, for a tap, starts a fresh detector
/// for the new side.
pub proof fn law_listener_adopts_binding(s: ListenerState, configured: HotkeyBinding, event: KeyEvent, now: u64)
    requires
        s.wf(),
        configured != s.active_binding,
    ensures
        s.after(configured, event, now).0.active_binding == configured,
        s.after(configured, event, now).0.wf(),
        configured is CommandTap ==> s.after(configured, event, now).0.detector == detector_for(
            configured,
            s.max_tap_ns,
        ).after(event, now).0,
{
}

/// A modifier pressed or released while the command key is held (any
/// changed modifier other than the configured command key) makes the tap a
/// chord: the following release of the command key does not toggle.
pub proof fn law_modifier_chord_cancels_tap(
    d: CommandTapDetector,
    other: KeyEvent,
    release: KeyEvent,
    t1: u64,
    t2: u64,
)
    requires
        d.wf(),
        d.command_down,
        other.changed_modifier matches Some(c) && !d.command_key_side.accepts(c),
        !release.is_key_down,
        release.changed_modifier matches Some(c) && d.command_key_side.accepts(c),
    ensures
        d.after(other, t1).0.chorded,
        d.after(other, t1).0.command_down,
        !d.after(other, t1).1,
        !d.after(other, t1).0.after(release, t2).1,
{
}

/// While a fired combination is disarmed, key-down events whose modifiers
/// still match it (such as the auto-repeats of a held combination) keep it
/// disarmed and toggle nothing; only a modifier mismatch or the release of
/// the combination's key re-arms it.
pub proof fn law_held_combo_stays_disarmed(s: ListenerState, combo: Hotkey, event: KeyEvent, now: u64)
    requires
        s.active_binding == HotkeyBinding::KeyCombo(combo),
        !s.combo_armed,
    ensures
        event.is_key_down && modifiers_match(combo.modifiers, event.modifiers) ==> {
            &&& !s.after(HotkeyBinding::KeyCombo(combo), event, now).0.combo_armed
            &&& !s.after(HotkeyBinding::KeyCombo(combo), event, now).1
        },
        s.after(HotkeyBinding::KeyCombo(combo), event, now).0.combo_armed <==> (!modifiers_match(
            combo.modifiers,
            event.modifiers,
        ) || (!event.is_key_down && event.key == combo.key)),
{
}

/// Holding a combination toggles once: a press and any number of repeats of
/// it (here two), with no release in between, toggle on the press only.
pub proof fn law_held_combo_toggles_once(
    s: ListenerState,
    combo: Hotkey,
    press: KeyEvent,
    repeat1: KeyEvent,
    repeat2: KeyEvent,
    t0: u64,
    t1: u64,
    t2: u64,
)
    requires
        s.active_binding == HotkeyBinding::KeyCombo(combo),
        s.combo_armed,
        combo_fires(combo, press),
        repeat1.is_key_down && modifiers_match(combo.modifiers, repeat1.modifiers),
        repeat2.is_key_down && modifiers_match(combo.modifiers, repeat2.modifiers),
    ensures
        s.after(HotkeyBinding::KeyCombo(combo), press, t0).1,
        !s.after(HotkeyBinding::KeyCombo(combo), press, t0).0.after(HotkeyBinding::KeyCombo(combo), repeat1, t1).1,
        !s.after(HotkeyBinding::KeyCombo(combo), press, t0).0.after(HotkeyBinding::KeyCombo(combo), repeat1, t1).0.after(
            HotkeyBinding::KeyCombo(combo),
            repeat2,
            t2,
        ).1,
{
    let b = HotkeyBinding::KeyCombo(combo);
    let s1 = s.after(b, press, t0).0;
    law_held_combo_stays_disarmed(s1, combo, repeat1, t1);
    let s2 = s1.after(b, repeat1, t1).0;
    law_held_combo_stays_disarmed(s2, combo, repeat2, t2);
}

} // verus!
