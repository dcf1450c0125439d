//! The per-key event state machine.
//!
//! A touch-down / touch-up pair on a key is interpreted against the key's
//! semantic kind ([`KeyButtonData`]), the current modifier state, and the
//! optional swipe-in-progress state.  Every user-visible side effect is
//! returned as an explicit [`Action`]; the caller performs them in order.

use vstd::prelude::*;

use crate::keys::{
    Action, CapType, PointerButton, AUTO_RELEASE_MODS, SHIFT, VK_INSERT,
};
use crate::state::{reap_processes, reap_spec, KeyboardState};
use vstd::string::StringExecFns;

verus! {

/// Semantic kind of a rendered key.
pub enum KeyButtonData {
    /// Ordinary character or function key.
    Key { vk: u32 },
    /// Held modifier; sticky behaviour is tracked per key in [`KeyState`].
    Modifier { modifier: u32 },
    /// Fixed ordered list of (virtual key, is-press) events fired on
    /// touch-down.
    Macro { verbs: Vec<(u32, bool)> },
    /// Spawns a process on touch-down and optionally another on touch-up.
    Exec {
        program: String,
        args: Vec<String>,
        release_program: Option<String>,
        release_args: Vec<String>,
    },
}

/// Per-rendered-key interaction state.
pub struct KeyState {
    /// What the key means.
    pub data: KeyButtonData,
    /// Whether the key is currently shown as pressed (ordinary keys).
    pub pressed: bool,
    /// Whether the latest modifier press turned the bit on (sticky).
    pub sticky: bool,
}

/// ASCII lower-casing of a single character; anything outside `A..=Z` is
/// unchanged.
pub open spec fn lower_char_spec(c: char) -> char {
    if 65 <= c as u32 && c as u32 <= 90 {
        (((c as u32) + 32) as u8) as char
    } else {
        c
    }
}

/// ASCII lower-casing of a character sequence.
pub open spec fn lower_seq(s: Seq<char>) -> Seq<char> {
    s.map_values(|c: char| lower_char_spec(c))
}

/// The character sequence of an optional word.
pub open spec fn word_view(w: Option<String>) -> Option<Seq<char>> {
    match w {
        Some(s) => Some(s@),
        None => None,
    }
}

/// ASCII lower-casing, executable.
pub fn lower_char(c: char) -> (r: char)
    ensures
        r == lower_char_spec(c),
{
    let u = c as u32;
    if 65 <= u && u <= 90 {
        ((u + 32) as u8) as char
    } else {
        c
    }
}

/// Lower-cases a whole label.
pub fn lower_label(l: &Vec<char>) -> (r: Vec<char>)
    ensures
        r@ == lower_seq(l@),
{
    let mut r: Vec<char> = Vec::new();
    let mut i: usize = 0;
    while i < l.len()
        invariant
            i <= l.len(),
            r@ == lower_seq(l@.take(i as int)),
        decreases l.len() - i,
    {
        let c = lower_char(l[i]);
        r.push(c);
        proof {
            assert(l@.take(i + 1).drop_last() == l@.take(i as int));
            assert(lower_seq(l@.take(i + 1)) =~= lower_seq(l@.take(i as int)).push(
                lower_char_spec(l@[i as int]),
            ));
        }
        i += 1;
    }
    proof {
        assert(l@.take(l@.len() as int) == l@);
    }
    r
}

/// Character-wise label equality.
pub fn chars_eq(a: &Vec<char>, b: &Vec<char>) -> (r: bool)
    ensures
        r == (a@ == b@),
{
    if a.len() != b.len() {
        proof {
            assert(a@ != b@);
        }
        return false;
    }
    let mut i: usize = 0;
    while i < a.len()
        invariant
            a.len() == b.len(),
            i <= a.len(),
            forall|j: int| 0 <= j < i ==> a@[j] == b@[j],
        decreases a.len() - i,
    {
        if a[i] != b[i] {
            proof {
                assert(a@[i as int] != b@[i as int]);
            }
            return false;
        }
        i += 1;
    }
    proof {
        assert(a@ =~= b@);
    }
    true
}

/// The extra modifier a touch asserts depending on which pointer button
/// performed it: a secondary press asserts Shift, a tertiary press asserts
/// the configured alternate modifier.
pub open spec fn button_extra_mask(button: PointerButton, alt_modifier: u32) -> u32 {
    match button {
        PointerButton::Right => SHIFT,
        PointerButton::Middle => alt_modifier,
        PointerButton::Left => 0,
    }
}

/// Hover-enter on a key while a touch is in progress: the entry point into
/// swipe accumulation.  Entering a letter key whose label differs from the
/// one the touch went down on marks the touch as swiping; while swiping,
/// every entered letter key appends its lower-cased label to the path.
pub fn handle_enter(
    key: &KeyState,
    key_label: &Vec<Vec<char>>,
    key_cap_type: CapType,
    kb: &mut KeyboardState,
)
    requires
        key_label.len() > 0,
    ensures
        final(kb).modifiers == old(kb).modifiers,
        final(kb).alt_modifier == old(kb).alt_modifier,
        final(kb).processes@ == old(kb).processes@,
        final(kb).clock_12h == old(kb).clock_12h,
        final(kb).swipe_enabled == old(kb).swipe_enabled,
        final(kb).last_pressed_key_label@ == old(kb).last_pressed_key_label@,
        final(kb).last_swiped_word == old(kb).last_swiped_word,
        if old(kb).swipe_enabled && key_cap_type == CapType::Letter {
            &&& final(kb).is_swiping == (old(kb).is_swiping || key_label@[0]@
                != old(kb).last_pressed_key_label@)
            &&& final(kb).current_swipe_input@ == if final(kb).is_swiping && (key.data matches
                KeyButtonData::Key { .. }) {
                old(kb).current_swipe_input@ + lower_seq(key_label@[0]@)
            } else {
                old(kb).current_swipe_input@
            }
        } else {
            &&& final(kb).is_swiping == old(kb).is_swiping
            &&& final(kb).current_swipe_input@ == old(kb).current_swipe_input@
        },
{
    if kb.swipe_enabled && key_cap_type == CapType::Letter {
        if !chars_eq(&key_label[0], &kb.last_pressed_key_label) {
            kb.is_swiping = true;
        }
        if kb.is_swiping {
            match &key.data {
                KeyButtonData::Key { .. } => {
                    let mut low = lower_label(&key_label[0]);
                    kb.current_swipe_input.append(&mut low);
                },
                _ => {},
            }
        }
    }
}

/// Touch-down on a key.
///
/// A press always leaves the swiping flag cleared.  On a letter key with
/// swipe support the press only seeds the swipe path and records the label;
/// otherwise the key acts immediately: an ordinary key asserts the
/// button-implied modifier and routes a key-down, a modifier key turns its
/// bit on (sticky exactly when the bit was off before), a macro key replays
/// its event list, and an exec key reaps finished processes and asks the
/// host to spawn its program.  `exited` answers, per tracked process, "has
/// it already exited?".
pub fn handle_press(
    key: &mut KeyState,
    key_cap_type: CapType,
    key_label: &Vec<Vec<char>>,
    kb: &mut KeyboardState,
    button: PointerButton,
    exited: &Vec<bool>,
    actions: &mut Vec<Action>,
)
    requires
        key_label.len() > 0,
        old(key).data matches KeyButtonData::Exec { .. } ==> exited.len() == old(
            kb,
        ).processes.len(),
    ensures
        !final(kb).is_swiping,
        final(kb).alt_modifier == old(kb).alt_modifier,
        final(kb).clock_12h == old(kb).clock_12h,
        final(kb).swipe_enabled == old(kb).swipe_enabled,
        final(kb).last_swiped_word == old(kb).last_swiped_word,
        final(key).data == old(key).data,
        match old(key).data {
            KeyButtonData::Key { vk } => {
                if old(kb).swipe_enabled && key_cap_type == CapType::Letter {
                    &&& final(kb).last_pressed_key_label@ == key_label@[0]@
                    &&& final(kb).current_swipe_input@ == lower_seq(key_label@[0]@)
                    &&& final(kb).modifiers == old(kb).modifiers
                    &&& final(kb).processes@ == old(kb).processes@
                    &&& final(actions)@ == old(actions)@
                    &&& final(key).pressed == old(key).pressed
                } else {
                    &&& final(kb).modifiers == (old(kb).modifiers | button_extra_mask(
                        button,
                        old(kb).alt_modifier,
                    ))
                    &&& final(actions)@ == old(actions)@.push(
                        Action::RouteModifiers { mask: final(kb).modifiers },
                    ).push(Action::RouteKey { vk, pressed: true }).push(Action::PlayKeyClick)
                    &&& final(key).pressed
                    &&& final(kb).processes@ == old(kb).processes@
                    &&& final(kb).last_pressed_key_label@ == old(kb).last_pressed_key_label@
                    &&& final(kb).current_swipe_input@ == old(kb).current_swipe_input@
                }
            },
            KeyButtonData::Modifier { modifier } => {
                &&& final(key).sticky == (old(kb).modifiers & modifier == 0)
                &&& final(kb).modifiers == (old(kb).modifiers | modifier)
                &&& final(actions)@ == old(actions)@.push(
                    Action::RouteModifiers { mask: final(kb).modifiers },
                ).push(Action::PlayKeyClick)
                &&& final(kb).processes@ == old(kb).processes@
                &&& final(key).pressed == old(key).pressed
            },
            KeyButtonData::Macro { verbs } => {
                &&& final(actions)@ == old(actions)@ + verbs@.map_values(
                    |v: (u32, bool)| Action::RouteKey { vk: v.0, pressed: v.1 },
                ).push(Action::PlayKeyClick)
                &&& final(kb).modifiers == old(kb).modifiers
                &&& final(kb).processes@ == old(kb).processes@
                &&& *final(key) == *old(key)
            },
            KeyButtonData::Exec { program, args, .. } => {
                &&& final(kb).processes@ == reap_spec(old(kb).processes@, exited@)
                &&& final(actions)@.len() == old(actions)@.len() + 2
                &&& final(actions)@.take(old(actions)@.len() as int) == old(actions)@
                &&& (final(actions)@[old(actions)@.len() as int] matches Action::Spawn {
                    program: p,
                    args: a,
                } && p == program && a@ == args@)
                &&& final(actions)@.last() == Action::PlayKeyClick
                &&& final(kb).modifiers == old(kb).modifiers
                &&& *final(key) == *old(key)
            },
        },
{
    kb.is_swiping = false;
    match &key.data {
        KeyButtonData::Key { vk } => {
            let vk: u32 = *vk;
            if kb.swipe_enabled && key_cap_type == CapType::Letter {
                let actual_label = key_label[0].clone();
                let low = lower_label(&actual_label);
                proof {
                    assert(actual_label@ =~= key_label@[0]@);
                }
                kb.last_pressed_key_label = actual_label;
                kb.current_swipe_input = low;
            } else {
                let extra = match button {
                    PointerButton::Right => SHIFT,
                    PointerButton::Middle => kb.alt_modifier,
                    PointerButton::Left => 0,
                };
                kb.modifiers = kb.modifiers | extra;
                actions.push(Action::RouteModifiers { mask: kb.modifiers });
                actions.push(Action::RouteKey { vk, pressed: true });
                key.pressed = true;
                actions.push(Action::PlayKeyClick);
            }
        },
        KeyButtonData::Modifier { modifier } => {
            let m: u32 = *modifier;
            key.sticky = kb.modifiers & m == 0;
            kb.modifiers = kb.modifiers | m;
            actions.push(Action::RouteModifiers { mask: kb.modifiers });
            actions.push(Action::PlayKeyClick);
        },
        KeyButtonData::Macro { verbs } => {
            let n = verbs.len();
            let mut i: usize = 0;
            while i < n
                invariant
                    n == verbs.len(),
                    i <= n,
                    key.data matches KeyButtonData::Macro { verbs: v } && v == verbs,
                    actions@ == old(actions)@ + verbs@.take(i as int).map_values(
                        |v: (u32, bool)| Action::RouteKey { vk: v.0, pressed: v.1 },
                    ),
                decreases n - i,
            {
                let (vk, press) = verbs[i];
                actions.push(Action::RouteKey { vk, pressed: press });
                proof {
                    assert(verbs@.take(i + 1).drop_last() == verbs@.take(i as int));
                    assert(verbs@.take(i + 1).map_values(
                        |v: (u32, bool)| Action::RouteKey { vk: v.0, pressed: v.1 },
                    ) =~= verbs@.take(i as int).map_values(
                        |v: (u32, bool)| Action::RouteKey { vk: v.0, pressed: v.1 },
                    ).push(Action::RouteKey { vk: verbs@[i as int].0, pressed: verbs@[i as int].1 }));
                }
                i += 1;
            }
            proof {
                assert(verbs@.take(n as int) == verbs@);
            }
            actions.push(Action::PlayKeyClick);
        },
        KeyButtonData::Exec { program, args, .. } => {
            let program = program.clone();
            let args = args.clone();
            reap_processes(&mut kb.processes, exited);
            proof {
                assert(args@ =~= (match old(key).data {
                    KeyButtonData::Exec { args: a, .. } => a,
                    _ => args,
                })@);
            }
            actions.push(Action::Spawn { program, args });
            actions.push(Action::PlayKeyClick);
            proof {
                assert(actions@.take(old(actions)@.len() as int) =~= old(actions)@);
            }
        },
    }
}

/// What a touch-up decided.
pub enum ReleaseOutcome {
    /// The release is fully handled; `consumed` tells the caller whether the
    /// event was taken (a sticky modifier release is not).
    Done { consumed: bool },
    /// A swipe ended: the caller must run the external word prediction on
    /// `path` (with `context` as the previous word) and then hand the ranked
    /// candidates to [`apply_prediction`].
    Predict { path: Vec<char>, context: Option<String> },
}

/// Touch-up on a key.
///
/// Ending a swipe on a letter key with a non-empty path asks the caller for
/// a prediction; releasing the same letter key the touch went down on taps
/// it (synthetic down+up).  An ordinary non-letter release unmarks the key,
/// drops the auto-release modifiers and routes the key-up; a modifier
/// release is a no-op while sticky and clears the bit otherwise; an exec
/// release reaps finished processes and asks the host to spawn the
/// configured release program.
pub fn handle_release(
    key: &mut KeyState,
    key_cap_type: CapType,
    kb: &mut KeyboardState,
    exited: &Vec<bool>,
    actions: &mut Vec<Action>,
) -> (r: ReleaseOutcome)
    requires
        old(key).data matches KeyButtonData::Exec { .. } ==> exited.len() == old(
            kb,
        ).processes.len(),
    ensures
        final(kb).alt_modifier == old(kb).alt_modifier,
        final(kb).clock_12h == old(kb).clock_12h,
        final(kb).swipe_enabled == old(kb).swipe_enabled,
        final(kb).is_swiping == old(kb).is_swiping,
        final(kb).last_pressed_key_label@ == old(kb).last_pressed_key_label@,
        final(kb).last_swiped_word == old(kb).last_swiped_word,
        final(key).data == old(key).data,
        match old(key).data {
            KeyButtonData::Key { vk } => {
                if old(kb).swipe_enabled && key_cap_type == CapType::Letter {
                    if old(kb).is_swiping {
                        if old(kb).current_swipe_input@.len() > 0 {
                            &&& (r matches ReleaseOutcome::Predict { path, context } && path@ == old(
                                kb,
                            ).current_swipe_input@ && context == old(kb).last_swiped_word)
                            &&& final(kb).current_swipe_input@ == Seq::<char>::empty()
                            &&& final(kb).modifiers == old(kb).modifiers
                            &&& final(actions)@ == old(actions)@
                            &&& *final(key) == *old(key)
                        } else {
                            &&& r matches ReleaseOutcome::Done { consumed: true }
                            &&& final(kb).current_swipe_input@ == old(kb).current_swipe_input@
                            &&& final(kb).modifiers == old(kb).modifiers
                            &&& final(actions)@ == old(actions)@
                            &&& *final(key) == *old(key)
                        }
                    } else {
                        // A tap: the pointer came up on the key it went down on.
                        &&& r matches ReleaseOutcome::Done { consumed: true }
                        &&& final(actions)@ == old(actions)@.push(
                            Action::RouteKey { vk, pressed: true },
                        ).push(Action::RouteKey { vk, pressed: false }).push(Action::PlayKeyClick)
                        &&& final(key).pressed
                        &&& final(kb).modifiers == old(kb).modifiers
                        &&& final(kb).current_swipe_input@ == old(kb).current_swipe_input@
                    }
                } else {
                    &&& r matches ReleaseOutcome::Done { consumed: true }
                    &&& !final(key).pressed
                    &&& final(kb).modifiers == (old(kb).modifiers & !AUTO_RELEASE_MODS)
                    &&& final(actions)@ == old(actions)@.push(
                        Action::RouteKey { vk, pressed: false },
                    ).push(Action::RouteModifiers { mask: final(kb).modifiers })
                    &&& final(kb).current_swipe_input@ == old(kb).current_swipe_input@
                }
            },
            KeyButtonData::Modifier { modifier } => {
                if old(key).sticky {
                    &&& r matches ReleaseOutcome::Done { consumed: false }
                    &&& final(kb).modifiers == old(kb).modifiers
                    &&& final(actions)@ == old(actions)@
                    &&& *final(key) == *old(key)
                } else {
                    &&& r matches ReleaseOutcome::Done { consumed: true }
                    &&& final(kb).modifiers == (old(kb).modifiers & !modifier)
                    &&& final(actions)@ == old(actions)@.push(
                        Action::RouteModifiers { mask: final(kb).modifiers },
                    )
                    &&& *final(key) == *old(key)
                }
            },
            KeyButtonData::Exec { release_program, release_args, .. } => {
                &&& r matches ReleaseOutcome::Done { consumed: true }
                &&& final(kb).processes@ == reap_spec(old(kb).processes@, exited@)
                &&& final(kb).modifiers == old(kb).modifiers
                &&& (match release_program {
                    Some(p) => {
                        &&& final(actions)@.len() == old(actions)@.len() + 1
                        &&& final(actions)@.take(old(actions)@.len() as int) == old(actions)@
                        &&& (final(actions)@.last() matches Action::Spawn { program, args }
                            && program == p && args@ == release_args@)
                    },
                    None => final(actions)@ == old(actions)@,
                })
                &&& *final(key) == *old(key)
            },
            KeyButtonData::Macro { .. } => {
                &&& r matches ReleaseOutcome::Done { consumed: true }
                &&& final(kb).modifiers == old(kb).modifiers
                &&& final(actions)@ == old(actions)@
                &&& *final(key) == *old(key)
            },
        },
        (match old(key).data {
            KeyButtonData::Exec { .. } => true,
            _ => final(kb).processes@ == old(kb).processes@,
        }),
{
    match &key.data {
        KeyButtonData::Key { vk } => {
            let vk: u32 = *vk;
            if kb.swipe_enabled && key_cap_type == CapType::Letter {
                if kb.is_swiping {
                    if kb.current_swipe_input.len() > 0 {
                        let mut path: Vec<char> = Vec::new();
                        core::mem::swap(&mut path, &mut kb.current_swipe_input);
                        let context = match &kb.last_swiped_word {
                            Some(w) => Some(w.clone()),
                            None => None,
                        };
                        return ReleaseOutcome::Predict { path, context };
                    }
                    ReleaseOutcome::Done { consumed: true }
                } else {
                    actions.push(Action::RouteKey { vk, pressed: true });
                    key.pressed = true;
                    actions.push(Action::RouteKey { vk, pressed: false });
                    actions.push(Action::PlayKeyClick);
                    ReleaseOutcome::Done { consumed: true }
                }
            } else {
                key.pressed = false;
                kb.modifiers = kb.modifiers & !AUTO_RELEASE_MODS;
                actions.push(Action::RouteKey { vk, pressed: false });
                actions.push(Action::RouteModifiers { mask: kb.modifiers });
                ReleaseOutcome::Done { consumed: true }
            }
        },
        KeyButtonData::Modifier { modifier } => {
            let m: u32 = *modifier;
            if key.sticky {
                ReleaseOutcome::Done { consumed: false }
            } else {
                kb.modifiers = kb.modifiers & !m;
                actions.push(Action::RouteModifiers { mask: kb.modifiers });
                ReleaseOutcome::Done { consumed: true }
            }
        },
        KeyButtonData::Exec { release_program, release_args, .. } => {
            let prog = match release_program {
                Some(p) => Some(p.clone()),
                None => None,
            };
            let rargs = release_args.clone();
            reap_processes(&mut kb.processes, exited);
            match prog {
                Some(p) => {
                    proof {
                        assert(rargs@ =~= (match old(key).data {
                            KeyButtonData::Exec { release_args: a, .. } => a,
                            _ => rargs,
                        })@);
                    }
                    actions.push(Action::Spawn { program: p, args: rargs });
                    proof {
                        assert(actions@.take(old(actions)@.len() as int) =~= old(actions)@);
                    }
                },
                None => {},
            }
            ReleaseOutcome::Done { consumed: true }
        },
        KeyButtonData::Macro { .. } => ReleaseOutcome::Done { consumed: true },
    }
}

/// Applies the ranked candidates of a finished swipe: the top word (with a
/// trailing space) goes to the primary clipboard, a Shift+Insert paste
/// gesture is routed, the prior modifier state is restored, and the word is
/// remembered as context for the next prediction.
pub fn apply_prediction(
    kb: &mut KeyboardState,
    ranked: &Vec<String>,
    actions: &mut Vec<Action>,
) -> (consumed: bool)
    requires
        ranked.len() > 0,
    ensures
        consumed,
        final(kb).modifiers == old(kb).modifiers,
        final(kb).alt_modifier == old(kb).alt_modifier,
        final(kb).processes@ == old(kb).processes@,
        final(kb).clock_12h == old(kb).clock_12h,
        final(kb).swipe_enabled == old(kb).swipe_enabled,
        final(kb).current_swipe_input@ == old(kb).current_swipe_input@,
        final(kb).last_pressed_key_label@ == old(kb).last_pressed_key_label@,
        final(kb).is_swiping == old(kb).is_swiping,
        word_view(final(kb).last_swiped_word) == Some(ranked@[0]@),
        final(actions)@.len() == old(actions)@.len() + 5,
        final(actions)@.take(old(actions)@.len() as int) == old(actions)@,
        (final(actions)@[old(actions)@.len() as int] matches Action::SetClipboard { text }
            && text@ == ranked@[0]@ + " "@),
        final(actions)@[old(actions)@.len() as int + 1] == (Action::RouteModifiers { mask: SHIFT }),
        final(actions)@[old(actions)@.len() as int + 2] == (Action::RouteKey {
            vk: VK_INSERT,
            pressed: true,
        }),
        final(actions)@[old(actions)@.len() as int + 3] == (Action::RouteKey {
            vk: VK_INSERT,
            pressed: false,
        }),
        final(actions)@[old(actions)@.len() as int + 4] == (Action::RouteModifiers {
            mask: old(kb).modifiers,
        }),
{
    let best = ranked[0].clone();
    let with_space = best.clone().concat(" ");
    actions.push(Action::SetClipboard { text: with_space });
    actions.push(Action::RouteModifiers { mask: SHIFT });
    actions.push(Action::RouteKey { vk: VK_INSERT, pressed: true });
    actions.push(Action::RouteKey { vk: VK_INSERT, pressed: false });
    actions.push(Action::RouteModifiers { mask: kb.modifiers });
    kb.last_swiped_word = Some(best);
    proof {
        assert(final(actions)@.take(old(actions)@.len() as int) =~= old(actions)@);
    }
    true
}

/// A modifier press while its bit is unset is sticky and turns the bit on;
/// the sticky release leaves the mask untouched, so the bit stays set; the
/// second press finds the bit already set (so it is not sticky), and only
/// its release clears the bit.
pub proof fn lemma_sticky_modifier_cycle(mask: u32, m: u32)
    requires
        m != 0,
        mask & m == 0,
    ensures
        (mask | m) & m != 0,
        ((mask | m) | m) & m != 0,
        (((mask | m) | m) & !m) & m == 0,
{
    assert((mask | m) & m != 0 && ((mask | m) | m) & m != 0 && (((mask | m) | m) & !m) & m == 0)
        by (bit_vector)
        requires m != 0 && mask & m == 0;
}

/// After any ordinary key release, the whole auto-release modifier set
/// (Shift, Ctrl, Alt, Super, Meta) is absent from the held mask, whatever it
/// held before.
pub proof fn lemma_auto_release_clears(mask: u32)
    ensures
        (mask & !AUTO_RELEASE_MODS) & SHIFT == 0,
        (mask & !AUTO_RELEASE_MODS) & crate::keys::CTRL == 0,
        (mask & !AUTO_RELEASE_MODS) & crate::keys::ALT == 0,
        (mask & !AUTO_RELEASE_MODS) & crate::keys::SUPER == 0,
        (mask & !AUTO_RELEASE_MODS) & crate::keys::META == 0,
{
    assert((mask & !0xcdu32) & 0x01u32 == 0 && (mask & !0xcdu32) & 0x04u32 == 0 && (mask
        & !0xcdu32) & 0x08u32 == 0 && (mask & !0xcdu32) & 0x40u32 == 0 && (mask & !0xcdu32)
        & 0x80u32 == 0) by (bit_vector);
}

} // verus!
