//! Virtual key codes, modifier bitmasks, and the explicit side-effect
//! vocabulary that the key event state machine emits.

use vstd::prelude::*;

verus! {

/// Modifier bit for the Shift level.
pub const SHIFT: u32 = 0x01;
/// Modifier bit for Caps Lock.
pub const CAPS_LOCK: u32 = 0x02;
/// Modifier bit for Control.
pub const CTRL: u32 = 0x04;
/// Modifier bit for Alt.
pub const ALT: u32 = 0x08;
/// Modifier bit for Num Lock.
pub const NUM_LOCK: u32 = 0x10;
/// Modifier bit for Super.
pub const SUPER: u32 = 0x40;
/// Modifier bit for Meta.
pub const META: u32 = 0x80;

/// The modifiers that every ordinary key release drops from the held mask:
/// Shift, Ctrl, Alt, Super and Meta (see [`lemma_auto_release_set`]).
pub const AUTO_RELEASE_MODS: u32 = 0xcd;

/// The auto-release set is exactly the union of the five modifier bits that
/// an ordinary key release always drops.
pub proof fn lemma_auto_release_set()
    ensures
        AUTO_RELEASE_MODS == (SHIFT | CTRL | ALT | SUPER | META),
{
    assert(0xcdu32 == (0x01u32 | 0x04u32 | 0x08u32 | 0x40u32 | 0x80u32)) by (bit_vector);
}

/// Virtual key code of the Insert key, used for the primary-selection paste
/// gesture after a swipe prediction.
pub const VK_INSERT: u32 = 118;

/// Which modifier a middle-click asserts, chosen by configuration.
#[derive(Clone, Copy, PartialEq, Eq, Structural, Debug)]
pub enum AltModifier {
    Shift,
    Ctrl,
    Alt,
    Super,
    Meta,
    Disabled,
}

/// The modifier bit that a configured alternate-modifier choice stands for.
pub open spec fn alt_modifier_mask(m: AltModifier) -> u32 {
    match m {
        AltModifier::Shift => SHIFT,
        AltModifier::Ctrl => CTRL,
        AltModifier::Alt => ALT,
        AltModifier::Super => SUPER,
        AltModifier::Meta => META,
        AltModifier::Disabled => 0,
    }
}

/// Maps the configured alternate-modifier choice to its modifier bit.
pub fn alt_modifier_to_key(m: AltModifier) -> (r: u32)
    ensures
        r == alt_modifier_mask(m),
{
    match m {
        AltModifier::Shift => SHIFT,
        AltModifier::Ctrl => CTRL,
        AltModifier::Alt => ALT,
        AltModifier::Super => SUPER,
        AltModifier::Meta => META,
        AltModifier::Disabled => 0,
    }
}

/// Which pointer button performed a touch.
#[derive(Clone, Copy, PartialEq, Eq, Structural, Debug)]
pub enum PointerButton {
    Left,
    Right,
    Middle,
}

/// Classification of a rendered key's label; only `Letter` keys take part in
/// swipe typing.
#[derive(Clone, Copy, PartialEq, Eq, Structural, Debug)]
pub enum CapType {
    Letter,
    Symbol,
    Function,
}

/// A side effect requested from the host.  The state machine only decides;
/// the caller performs these in order.
#[derive(Clone, PartialEq, Debug)]
pub enum Action {
    /// Inject a key-down (`pressed == true`) or key-up event.
    RouteKey { vk: u32, pressed: bool },
    /// Publish the held-modifier bitmask to the input system.
    RouteModifiers { mask: u32 },
    /// Put `text` on the primary-selection clipboard.
    SetClipboard { text: String },
    /// Play the key-click feedback sample.
    PlayKeyClick,
    /// Spawn `program` with `args`, fire-and-forget.
    Spawn { program: String, args: Vec<String> },
    /// Tell the host task queue that the visual layout changed.
    NotifyLayoutChanged,
}

/// Requests the key-click feedback sound by appending its action.
pub fn play_key_click(actions: &mut Vec<Action>)
    ensures
        final(actions)@ == old(actions)@.push(Action::PlayKeyClick),
{
    actions.push(Action::PlayKeyClick);
}

} // verus!
