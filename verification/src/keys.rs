//! Plain-value model of keyboard events and hotkeys, with the few calls that
//! only the `handy_keys` crate can answer.
//!
//! Modifier sets are bit masks laid out exactly as `handy_keys::Modifiers`
//! lays them out, so the two convert one for one.

use vstd::prelude::*;

verus! {

/// Left command key.
pub const CMD_LEFT: u32 = 1;
/// Left shift key.
pub const SHIFT_LEFT: u32 = 2;
/// Left control key.
pub const CTRL_LEFT: u32 = 4;
/// Left option key.
pub const OPT_LEFT: u32 = 8;
/// Function key.
pub const FN: u32 = 16;
/// Right command key.
pub const CMD_RIGHT: u32 = 32;
/// Right shift key.
pub const SHIFT_RIGHT: u32 = 64;
/// Right control key.
pub const CTRL_RIGHT: u32 = 128;
/// Right option key.
pub const OPT_RIGHT: u32 = 256;
/// Command on either side.
pub const CMD: u32 = 33;
/// Shift on either side.
pub const SHIFT: u32 = 66;
/// Control on either side.
pub const CTRL: u32 = 132;
/// Option on either side.
pub const OPT: u32 = 264;

#[verifier::external_type_specification]
#[verifier::external_body]
pub struct ExKey(handy_keys::Key);

/// One keyboard event as delivered by the global listener.
#[derive(Debug, Clone, Copy)]
pub struct KeyEvent {
    /// Modifier bits held while the event happened.
    pub modifiers: u32,
    /// The non-modifier key, if any.
    pub key: Option<handy_keys::Key>,
    /// True for a press, false for a release.
    pub is_key_down: bool,
    /// For modifier-only events, the modifier bit that changed.
    pub changed_modifier: Option<u32>,
}

/// A key combination: modifiers and/or one key.
#[derive(Debug, Clone, Copy, PartialEq, Eq)]
pub struct Hotkey {
    /// Modifier bits of the combination.
    pub modifiers: u32,
    /// The non-modifier key of the combination, if any.
    pub key: Option<handy_keys::Key>,
}

/// Why a hotkey could not be built.
#[derive(Debug, Clone, Copy, PartialEq, Eq, Structural)]
pub enum HotkeyError {
    /// Neither a modifier nor a key was given.
    EmptyHotkey,
}

/// True when every bit of `flag` is set in `bits`.
pub open spec fn has_all(bits: u32, flag: u32) -> bool {
    bits & flag == flag
}

/// One modifier group of `handy_keys::Modifiers::matches`: a pattern with both
/// sides accepts either side, one side demands that side, none forbids both.
pub open spec fn group_matches(pattern: u32, event: u32, left: u32, right: u32) -> bool {
    let hl = has_all(pattern, left);
    let hr = has_all(pattern, right);
    let el = has_all(event, left);
    let er = has_all(event, right);
    if hl && hr {
        el || er
    } else if hl {
        el
    } else if hr {
        er
    } else {
        !el && !er
    }
}

/// Whether a hotkey's modifier pattern accepts the modifier state of an event.
pub open spec fn modifiers_match(pattern: u32, event: u32) -> bool {
    &&& group_matches(pattern, event, CMD_LEFT, CMD_RIGHT)
    &&& group_matches(pattern, event, SHIFT_LEFT, SHIFT_RIGHT)
    &&& group_matches(pattern, event, CTRL_LEFT, CTRL_RIGHT)
    &&& group_matches(pattern, event, OPT_LEFT, OPT_RIGHT)
    &&& has_all(pattern, FN) == has_all(event, FN)
}

/// What `handy_keys::Hotkey`'s `Display` prints for a combination.
pub uninterp spec fn hotkey_display(modifiers: u32, key: Option<handy_keys::Key>) -> Seq<char>;

/// Whether a key is `handy_keys::Key::Escape`.
pub uninterp spec fn key_is_escape(key: handy_keys::Key) -> bool;

/// Calls `handy_keys::Modifiers::matches` on two modifier masks; the contract
/// restates its per-group rule as given in the crate's source.
#[verifier::external_body]
pub(crate) fn pattern_matches(pattern: u32, event: u32) -> (r: bool)
    ensures
        r == modifiers_match(pattern, event),
{
    handy_keys::Modifiers::from_bits_retain(pattern).matches(
        handy_keys::Modifiers::from_bits_retain(event),
    )
}

/// Calls the derived `PartialEq` of `Option<handy_keys::Key>`; the key type is
/// a field-less enum, so equality is sameness of the variant.
#[verifier::external_body]
pub(crate) fn same_key(a: Option<handy_keys::Key>, b: Option<handy_keys::Key>) -> (r: bool)
    ensures
        r == (a == b),
{
    a == b
}

/// Tells `handy_keys::Key::Escape` apart from the other variants.
#[verifier::external_body]
pub(crate) fn is_escape_key(key: handy_keys::Key) -> (r: bool)
    ensures
        r == key_is_escape(key),
{
    matches!(key, handy_keys::Key::Escape)
}

/// Calls `handy_keys::Hotkey::new`, which refuses exactly the combination with
/// no modifier and no key and otherwise keeps both parts unchanged.
#[verifier::external_body]
fn handy_hotkey_new(modifiers: u32, key: Option<handy_keys::Key>) -> (r: Result<Hotkey, HotkeyError>)
    ensures
        r is Ok <==> !(modifiers == 0 && key is None),
        r matches Ok(h) ==> h.modifiers == modifiers && h.key == key,
        r matches Err(e) ==> e == HotkeyError::EmptyHotkey,
{
    match handy_keys::Hotkey::new(handy_keys::Modifiers::from_bits_retain(modifiers), key) {
        Ok(h) => Ok(Hotkey { modifiers: h.modifiers.bits(), key: h.key }),
        Err(_) => Err(HotkeyError::EmptyHotkey),
    }
}

/// Calls `handy_keys::Hotkey`'s `Display` on the same combination.
#[verifier::external_body]
pub(crate) fn hotkey_text(hotkey: &Hotkey) -> (s: String)
    ensures
        s@ == hotkey_display(hotkey.modifiers, hotkey.key),
{
    handy_keys::Hotkey {
        modifiers: handy_keys::Modifiers::from_bits_retain(hotkey.modifiers),
        key: hotkey.key,
    }.to_string()
}

impl Hotkey {
    /// Builds a hotkey; at least one of the modifiers or the key is required.
    pub fn new(modifiers: u32, key: Option<handy_keys::Key>) -> (r: Result<Hotkey, HotkeyError>)
        ensures
            r is Ok <==> !(modifiers == 0 && key is None),
            r matches Ok(h) ==> h.modifiers == modifiers && h.key == key,
            r matches Err(e) ==> e == HotkeyError::EmptyHotkey,
    {
        handy_hotkey_new(modifiers, key)
    }

    /// Structural equality of two combinations.
    pub fn same_as(&self, other: &Hotkey) -> (r: bool)
        ensures
            r == (*self == *other),
    {
        self.modifiers == other.modifiers && same_key(self.key, other.key)
    }
}

} // verus!
