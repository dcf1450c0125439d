//! Per-layout keyboard session state.
//!
//! A `KeyboardState` belongs to one layout panel.  When the active layout is
//! hot-swapped, only four fields persist into the entering panel — the held
//! modifier mask, the configured alternate modifier, the tracked spawned
//! processes, and the clock display mode; everything swipe-related is rebuilt
//! fresh because it depends on the entering layout's geometry.

use vstd::prelude::*;

verus! {

/// Mutable per-layout session state.
///
/// `swipe_enabled` records whether a gesture-prediction engine could be
/// constructed for this layout; when it is false the panel operates without
/// swipe support.  Spawned processes are tracked as opaque tokens handed in
/// by the host and reaped lazily on the next key press or release.
pub struct KeyboardState {
    /// Held modifier bitmask.
    pub modifiers: u32,
    /// Modifier bit asserted by a middle-button touch, from configuration.
    pub alt_modifier: u32,
    /// Tokens of spawned external processes, reaped lazily.
    pub processes: Vec<u64>,
    /// 12-hour clock display mode.
    pub clock_12h: bool,
    /// Whether a gesture-prediction engine exists for this layout.
    pub swipe_enabled: bool,
    /// Lower-cased letters accumulated along the current touch path.
    pub current_swipe_input: Vec<char>,
    /// Label of the most recently pressed key.
    pub last_pressed_key_label: Vec<char>,
    /// Whether the touch path has reached a second, different letter.
    pub is_swiping: bool,
    /// The most recent predicted word, used as context for the next
    /// prediction.
    pub last_swiped_word: Option<String>,
}

impl KeyboardState {
    /// A fresh state with everything but the configured fields defaulted.
    pub fn new(alt_modifier: u32, clock_12h: bool) -> (r: KeyboardState)
        ensures
            r.modifiers == 0,
            r.alt_modifier == alt_modifier,
            r.processes@ == Seq::<u64>::empty(),
            r.clock_12h == clock_12h,
            !r.swipe_enabled,
            r.current_swipe_input@ == Seq::<char>::empty(),
            r.last_pressed_key_label@ == Seq::<char>::empty(),
            !r.is_swiping,
            r.last_swiped_word is None,
    {
        KeyboardState {
            modifiers: 0,
            alt_modifier,
            processes: Vec::new(),
            clock_12h,
            swipe_enabled: false,
            current_swipe_input: Vec::new(),
            last_pressed_key_label: Vec::new(),
            is_swiping: false,
            last_swiped_word: None,
        }
    }

    /// Takes the state out for a layout swap: the four persisted fields
    /// (modifiers, alternate modifier, processes, clock mode) move into the
    /// result; every swipe-related field of the result starts fresh.  The
    /// donor keeps its scalar fields but gives up its process list.
    pub fn take(&mut self) -> (r: KeyboardState)
        ensures
            r.modifiers == old(self).modifiers,
            r.alt_modifier == old(self).alt_modifier,
            r.processes@ == old(self).processes@,
            r.clock_12h == old(self).clock_12h,
            !r.swipe_enabled,
            r.current_swipe_input@ == Seq::<char>::empty(),
            r.last_pressed_key_label@ == Seq::<char>::empty(),
            !r.is_swiping,
            r.last_swiped_word is None,
            final(self).modifiers == old(self).modifiers,
            final(self).alt_modifier == old(self).alt_modifier,
            final(self).processes@ == Seq::<u64>::empty(),
            final(self).clock_12h == old(self).clock_12h,
            final(self).swipe_enabled == old(self).swipe_enabled,
            final(self).current_swipe_input@ == old(self).current_swipe_input@,
            final(self).last_pressed_key_label@ == old(self).last_pressed_key_label@,
            final(self).is_swiping == old(self).is_swiping,
            final(self).last_swiped_word == old(self).last_swiped_word,
    {
        let mut procs: Vec<u64> = Vec::new();
        core::mem::swap(&mut procs, &mut self.processes);
        KeyboardState {
            modifiers: self.modifiers,
            alt_modifier: self.alt_modifier,
            processes: procs,
            clock_12h: self.clock_12h,
            swipe_enabled: false,
            current_swipe_input: Vec::new(),
            last_pressed_key_label: Vec::new(),
            is_swiping: false,
            last_swiped_word: None,
        }
    }

    /// Records a process the host actually managed to spawn; a failed spawn
    /// is swallowed by the host and never recorded.
    pub fn note_spawned(&mut self, token: u64)
        ensures
            final(self).processes@ == old(self).processes@.push(token),
            final(self).modifiers == old(self).modifiers,
            final(self).alt_modifier == old(self).alt_modifier,
            final(self).clock_12h == old(self).clock_12h,
            final(self).swipe_enabled == old(self).swipe_enabled,
            final(self).current_swipe_input@ == old(self).current_swipe_input@,
            final(self).last_pressed_key_label@ == old(self).last_pressed_key_label@,
            final(self).is_swiping == old(self).is_swiping,
            final(self).last_swiped_word == old(self).last_swiped_word,
    {
        self.processes.push(token);
    }
}

/// The process tokens that survive a reap pass: exactly those whose
/// matching entry in `exited` is false, in their original order.
pub open spec fn reap_spec(procs: Seq<u64>, exited: Seq<bool>) -> Seq<u64>
    recommends
        procs.len() == exited.len(),
    decreases procs.len(),
{
    if procs.len() == 0 {
        Seq::empty()
    } else {
        let rest = reap_spec(procs.drop_last(), exited.drop_last());
        if exited[procs.len() - 1] {
            rest
        } else {
            rest.push(procs.last())
        }
    }
}

/// Drops every process that the host reports as already exited, keeping the
/// rest in order.  `exited[i]` answers "has `procs[i]` already exited?".
pub fn reap_processes(procs: &mut Vec<u64>, exited: &Vec<bool>)
    requires
        old(procs).len() == exited.len(),
    ensures
        final(procs)@ == reap_spec(old(procs)@, exited@),
{
    let n = procs.len();
    let mut kept: Vec<u64> = Vec::new();
    let mut i: usize = 0;
    while i < n
        invariant
            n == procs.len() == exited.len(),
            procs@ == old(procs)@,
            i <= n,
            kept@ == reap_spec(procs@.take(i as int), exited@.take(i as int)),
        decreases n - i,
    {
        proof {
            assert(procs@.take(i + 1).drop_last() == procs@.take(i as int));
            assert(exited@.take(i + 1).drop_last() == exited@.take(i as int));
            assert(procs@.take(i + 1).last() == procs@[i as int]);
        }
        if !exited[i] {
            kept.push(procs[i]);
        }
        i += 1;
    }
    proof {
        assert(procs@.take(n as int) == procs@);
        assert(exited@.take(n as int) == exited@);
    }
    core::mem::swap(procs, &mut kept);
}

} // verus!
