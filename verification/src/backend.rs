//! The keyboard backend: one interactive panel per distinct layout name,
//! cached in a slot arena, with hot-swapping between them when the desktop's
//! active keymap changes.
//!
//! Contracts are stated over [`BackendModel`], a mathematical view of the
//! backend: the panel arena as a sequence of optional state models, the
//! layout-name registrations as a sequence of (name, identity) pairs looked
//! up newest-first, and the active panel identity.

use vstd::prelude::*;

use crate::arena::{Arena, ArenaId};
use crate::keymap::{keymap_name_view, Keymap};
use crate::keys::Action;
use crate::machine::word_view;
use crate::state::KeyboardState;

verus! {

/// Mathematical view of a [`KeyboardState`].
pub ghost struct StateModel {
    pub modifiers: u32,
    pub alt_modifier: u32,
    pub processes: Seq<u64>,
    pub clock_12h: bool,
    pub swipe_enabled: bool,
    pub swipe_input: Seq<char>,
    pub last_label: Seq<char>,
    pub is_swiping: bool,
    pub last_word: Option<Seq<char>>,
}

/// The view of a concrete keyboard state.
pub open spec fn state_model(s: KeyboardState) -> StateModel {
    StateModel {
        modifiers: s.modifiers,
        alt_modifier: s.alt_modifier,
        processes: s.processes@,
        clock_12h: s.clock_12h,
        swipe_enabled: s.swipe_enabled,
        swipe_input: s.current_swipe_input@,
        last_label: s.last_pressed_key_label@,
        is_swiping: s.is_swiping,
        last_word: word_view(s.last_swiped_word),
    }
}

/// A fresh state configured with the given alternate modifier and clock
/// mode.
pub open spec fn fresh_state_model(alt_modifier: u32, clock_12h: bool) -> StateModel {
    StateModel {
        modifiers: 0,
        alt_modifier,
        processes: Seq::empty(),
        clock_12h,
        swipe_enabled: false,
        swipe_input: Seq::empty(),
        last_label: Seq::empty(),
        is_swiping: false,
        last_word: None,
    }
}

/// What a hot-swap carries into the entering panel: only the four persisted
/// fields; every swipe-related field starts fresh, and swipe support is
/// whatever the engine construction for the entering layout yielded.
pub open spec fn swapped_in(from: StateModel, swipe_ok: bool) -> StateModel {
    StateModel {
        modifiers: from.modifiers,
        alt_modifier: from.alt_modifier,
        processes: from.processes,
        clock_12h: from.clock_12h,
        swipe_enabled: swipe_ok,
        swipe_input: Seq::empty(),
        last_label: Seq::empty(),
        is_swiping: false,
        last_word: None,
    }
}

/// What the donor of a hot-swap keeps: everything but its process list,
/// which moved out with the swap.
pub open spec fn swapped_out(from: StateModel) -> StateModel {
    StateModel { processes: Seq::empty(), ..from }
}

/// Mathematical view of the whole backend.
pub ghost struct BackendModel {
    pub panels: Seq<Option<StateModel>>,
    pub ids: Seq<(Seq<char>, ArenaId)>,
    pub active: ArenaId,
    pub auto_labels: bool,
    pub default_state: StateModel,
}

/// The panel identity registered for a layout name; a later registration of
/// the same name wins.
pub open spec fn lookup_layout(ids: Seq<(Seq<char>, ArenaId)>, name: Seq<char>) -> Option<ArenaId>
    decreases ids.len(),
{
    if ids.len() == 0 {
        None
    } else if ids.last().0 == name {
        Some(ids.last().1)
    } else {
        lookup_layout(ids.drop_last(), name)
    }
}

/// The name registrations as (character sequence, identity) pairs.
pub open spec fn ids_view(ids: Seq<(String, ArenaId)>) -> Seq<(Seq<char>, ArenaId)> {
    ids.map_values(|p: (String, ArenaId)| (p.0@, p.1))
}

/// A successful lookup names one of the registered identities.
proof fn lemma_lookup_is_entry(ids: Seq<(Seq<char>, ArenaId)>, name: Seq<char>)
    requires
        lookup_layout(ids, name) is Some,
    ensures
        exists|j: int|
            0 <= j < ids.len() && ids[j].1 == lookup_layout(ids, name)->0,
    decreases ids.len(),
{
    if ids.last().0 == name {
        assert(ids[ids.len() - 1].1 == lookup_layout(ids, name)->0);
    } else {
        lemma_lookup_is_entry(ids.drop_last(), name);
        let j = choose|j: int|
            0 <= j < ids.drop_last().len() && ids.drop_last()[j].1 == lookup_layout(
                ids.drop_last(),
                name,
            )->0;
        assert(ids[j].1 == lookup_layout(ids, name)->0);
    }
}

/// When a switch to `name` is actually performed: automatic labelling is
/// on, the keymap has a name, and that name is not already the active
/// panel's.
pub open spec fn switch_condition(pre: BackendModel, name: Option<Seq<char>>) -> bool {
    &&& pre.auto_labels
    &&& name is Some
    &&& lookup_layout(pre.ids, name->0) != Some(pre.active)
}

/// The transition relation of [`KeyboardBackend::switch_keymap`]: it
/// switches exactly under [`switch_condition`]; a refused switch changes
/// nothing; a performed switch ends with the name's panel active, creating
/// it (out of the default state) only when the name was unregistered.
pub open spec fn switch_post(
    pre: BackendModel,
    post: BackendModel,
    name: Option<Seq<char>>,
    r: bool,
) -> bool {
    &&& r == switch_condition(pre, name)
    &&& (!r ==> post == pre)
    &&& (r ==> {
        &&& post.auto_labels == pre.auto_labels
        &&& lookup_layout(post.ids, name->0) == Some(post.active)
        &&& (match lookup_layout(pre.ids, name->0) {
            Some(_) => post.ids == pre.ids && post.default_state == pre.default_state,
            None => post.ids == pre.ids.push((name->0, post.active)) && post.default_state
                == swapped_out(pre.default_state),
        })
    })
}

/// Switching to the same keymap twice in a row is idempotent: whatever the
/// first call did, the second performs no rebuild, changes nothing, and
/// reports that it did not switch.
pub proof fn lemma_switch_idempotent(
    s0: BackendModel,
    s1: BackendModel,
    s2: BackendModel,
    name: Option<Seq<char>>,
    r1: bool,
    r2: bool,
)
    requires
        switch_post(s0, s1, name, r1),
        switch_post(s1, s2, name, r2),
    ensures
        !r2,
        s2 == s1,
{
    if r1 {
        assert(lookup_layout(s1.ids, name->0) == Some(s1.active));
        assert(!switch_condition(s1, name));
    } else {
        assert(s1 == s0);
        assert(!switch_condition(s1, name));
    }
}

/// The keyboard backend: the panel cache, the layout-name registrations,
/// the active panel, the template state for brand-new panels, and the
/// automatic-labelling configuration toggle.
pub struct KeyboardBackend {
    pub layout_panels: Arena<KeyboardState>,
    pub layout_ids: Vec<(String, ArenaId)>,
    pub active_layout: ArenaId,
    pub default_state: KeyboardState,
    pub auto_labels: bool,
}

/// Finds the panel registered for `name`, newest registration first.
fn find_layout_id(ids: &Vec<(String, ArenaId)>, name: &String) -> (r: Option<ArenaId>)
    ensures
        r == lookup_layout(ids_view(ids@), name@),
{
    let ghost full = ids_view(ids@);
    let mut i: usize = ids.len();
    proof {
        assert(full.take(i as int) =~= full);
    }
    while i > 0
        invariant
            i <= ids.len(),
            full == ids_view(ids@),
            lookup_layout(full, name@) == lookup_layout(full.take(i as int), name@),
        decreases i,
    {
        i -= 1;
        if ids[i].0 == *name {
            proof {
                assert(full.take(i + 1).last() == full[i as int]);
                assert(full[i as int].0 == name@);
            }
            return Some(ids[i].1);
        }
        proof {
            assert(full.take(i + 1).last() == full[i as int]);
            assert(full[i as int].0 != name@);
            assert(full.take(i + 1).drop_last() =~= full.take(i as int));
        }
    }
    proof {
        assert(full.take(0).len() == 0);
    }
    None
}

impl KeyboardBackend {
    /// The mathematical view of this backend.
    pub open spec fn model(&self) -> BackendModel {
        BackendModel {
            panels: self.layout_panels.entries().map_values(
                |o: Option<KeyboardState>|
                    match o {
                        Some(s) => Some(state_model(s)),
                        None => None::<StateModel>,
                    },
            ),
            ids: ids_view(self.layout_ids@),
            active: self.active_layout,
            auto_labels: self.auto_labels,
            default_state: state_model(self.default_state),
        }
    }

    /// Well-formedness: the active identity and every registered identity
    /// name live panels.
    pub open spec fn wf(&self) -> bool {
        &&& self.layout_panels.contains_id(self.active_layout)
        &&& forall|j: int|
            0 <= j < self.layout_ids@.len() ==> self.layout_panels.contains_id(
                (#[trigger] self.layout_ids@[j]).1,
            )
    }

    /// Builds the backend with its first panel (an unnamed keymap still
    /// serves as the single initial panel, it just cannot be found by
    /// name later).
    pub fn create(
        alt_modifier: u32,
        clock_12h: bool,
        auto_labels: bool,
        keymap: Option<&Keymap>,
        swipe_ok: bool,
    ) -> (b: KeyboardBackend)
        ensures
            b.wf(),
            b.auto_labels == auto_labels,
            b.active_layout.idx == 0,
            b.model().panels == seq![
                Some(swapped_in(fresh_state_model(alt_modifier, clock_12h), swipe_ok)),
            ],
            b.model().ids == (match keymap {
                Some(k) => match keymap_name_view(*k) {
                    Some(n) => seq![(n, ArenaId { idx: 0 })],
                    None => Seq::<(Seq<char>, ArenaId)>::empty(),
                },
                None => Seq::<(Seq<char>, ArenaId)>::empty(),
            }),
    {
        let default_state = KeyboardState::new(alt_modifier, clock_12h);
        let mut b = KeyboardBackend {
            layout_panels: Arena::new(),
            layout_ids: Vec::new(),
            active_layout: ArenaId { idx: 0 },
            default_state,
            auto_labels,
        };
        let id = b.add_new_keymap(keymap, swipe_ok);
        b.active_layout = id;
        proof {
            assert forall|j: int| 0 <= j < b.layout_ids@.len() implies b.layout_panels.contains_id(
                (#[trigger] b.layout_ids@[j]).1,
            ) by {
                assert(b.layout_ids@[j].1 == id);
            }
        }
        b
    }

    /// Builds a fresh panel for `keymap`: its state starts from the default
    /// template (whose process list moves in), swipe support as the engine
    /// construction yielded, and the layout name — when the keymap has one —
    /// is registered for later reuse.
    pub fn add_new_keymap(&mut self, keymap: Option<&Keymap>, swipe_ok: bool) -> (id: ArenaId)
        ensures
            id.idx == old(self).model().panels.len(),
            final(self).layout_panels.contains_id(id),
            final(self).model().panels == old(self).model().panels.push(
                Some(swapped_in(old(self).model().default_state, swipe_ok)),
            ),
            final(self).model().default_state == swapped_out(old(self).model().default_state),
            final(self).model().ids == (match keymap {
                Some(k) => match keymap_name_view(*k) {
                    Some(n) => old(self).model().ids.push((n, id)),
                    None => old(self).model().ids,
                },
                None => old(self).model().ids,
            }),
            final(self).active_layout == old(self).active_layout,
            final(self).auto_labels == old(self).auto_labels,
            old(self).layout_ids@.len() <= final(self).layout_ids@.len(),
            forall|j: int|
                0 <= j < old(self).layout_ids@.len() ==> final(self).layout_ids@[j] == old(
                    self,
                ).layout_ids@[j],
            forall|j: int|
                old(self).layout_ids@.len() <= j < final(self).layout_ids@.len() ==> (
                #[trigger] final(self).layout_ids@[j]).1 == id,
            old(self).wf() ==> final(self).wf(),
    {
        let mut st = self.default_state.take();
        st.swipe_enabled = swipe_ok;
        let id = self.layout_panels.insert(st);
        match keymap {
            Some(k) => {
                match &k.name {
                    Some(n) => {
                        self.layout_ids.push((n.clone(), id));
                    },
                    None => {},
                }
            },
            None => {},
        }
        proof {
            assert(self.model().panels =~= old(self).model().panels.push(
                Some(swapped_in(old(self).model().default_state, swipe_ok)),
            ));
            match keymap {
                Some(k) => match keymap_name_view(*k) {
                    Some(n) => {
                        assert(self.model().ids =~= old(self).model().ids.push((n, id)));
                    },
                    None => {},
                },
                None => {},
            }
            if old(self).wf() {
                assert forall|j: int| 0 <= j < self.layout_ids@.len() implies self
                    .layout_panels.contains_id((#[trigger] self.layout_ids@[j]).1) by {
                    if j < old(self).layout_ids@.len() {
                        assert(old(self).layout_panels.contains_id(old(self).layout_ids@[j].1));
                    }
                }
            }
        }
        id
    }

    /// Performs the state transfer of a hot-swap: the active panel's state
    /// moves (with a fresh swipe setup for the entering layout) into the
    /// panel named by `new_key`, which becomes active; the leaving panel
    /// keeps its state minus the process list that moved out.
    pub fn internal_switch_keymap(&mut self, new_key: ArenaId, swipe_ok: bool)
        requires
            old(self).wf(),
            old(self).layout_panels.contains_id(new_key),
        ensures
            final(self).wf(),
            final(self).active_layout == new_key,
            final(self).model().ids == old(self).model().ids,
            final(self).auto_labels == old(self).auto_labels,
            final(self).model().default_state == old(self).model().default_state,
            ({
                let am = old(self).model().panels[old(self).active_layout.idx as int]->0;
                final(self).model().panels == old(self).model().panels.update(
                    old(self).active_layout.idx as int,
                    Some(swapped_out(am)),
                ).update(new_key.idx as int, Some(swapped_in(am, swipe_ok)))
            }),
    {
        let donor = self.layout_panels.get_mut(self.active_layout);
        let mut moved = donor.take();
        moved.swipe_enabled = swipe_ok;
        self.active_layout = new_key;
        let target = self.layout_panels.get_mut(self.active_layout);
        *target = moved;
        proof {
            let am = old(self).model().panels[old(self).active_layout.idx as int]->0;
            assert(self.model().panels =~= old(self).model().panels.update(
                old(self).active_layout.idx as int,
                Some(swapped_out(am)),
            ).update(new_key.idx as int, Some(swapped_in(am, swipe_ok))));
            assert forall|j: int| 0 <= j < self.layout_ids@.len() implies self
                .layout_panels.contains_id((#[trigger] self.layout_ids@[j]).1) by {
                assert(old(self).layout_panels.contains_id(old(self).layout_ids@[j].1));
            }
        }
    }

    /// Hot-swaps to `keymap` if automatic labelling is enabled, the keymap
    /// has a layout name, and that name's panel is not already active;
    /// creates the panel on first encounter of the name.  Returns whether a
    /// switch happened; a switch also asks the host to note that the visual
    /// layout changed.
    pub fn switch_keymap(&mut self, keymap: &Keymap, swipe_ok: bool, actions: &mut Vec<Action>) -> (r:
        bool)
        requires
            old(self).wf(),
        ensures
            final(self).wf(),
            switch_post(old(self).model(), final(self).model(), keymap_name_view(*keymap), r),
            final(actions)@ == if r {
                old(actions)@.push(Action::NotifyLayoutChanged)
            } else {
                old(actions)@
            },
    {
        if !self.auto_labels {
            return false;
        }
        let name = match &keymap.name {
            Some(n) => n.clone(),
            None => {
                return false;
            },
        };
        match find_layout_id(&self.layout_ids, &name) {
            Some(new_key) => {
                if new_key == self.active_layout {
                    return false;
                }
                proof {
                    lemma_lookup_is_entry(ids_view(self.layout_ids@), name@);
                }
                self.internal_switch_keymap(new_key, swipe_ok);
            },
            None => {
                let new_key = self.add_new_keymap(Some(keymap), swipe_ok);
                proof {
                    assert(self.model().ids.last() == (name@, new_key));
                }
                self.internal_switch_keymap(new_key, swipe_ok);
            },
        }
        actions.push(Action::NotifyLayoutChanged);
        true
    }

    /// Borrows the active panel's state.
    pub fn active_state(&self) -> (r: &KeyboardState)
        requires
            self.wf(),
        ensures
            *r == self.layout_panels.spec_get(self.active_layout),
    {
        self.layout_panels.get(self.active_layout)
    }

    /// Mutably borrows the active panel's state, for feeding touch events
    /// to the key event state machine.
    pub fn active_state_mut(&mut self) -> (r: &mut KeyboardState)
        requires
            old(self).wf(),
        ensures
            *r == old(self).layout_panels.spec_get(old(self).active_layout),
            final(self).active_layout == old(self).active_layout,
            final(self).auto_labels == old(self).auto_labels,
            final(self).layout_ids == old(self).layout_ids,
            final(self).default_state == old(self).default_state,
            final(self).layout_panels.entries() == old(self).layout_panels.entries().update(
                old(self).active_layout.idx as int,
                Some(*final(r)),
            ),
            final(self).wf(),
    {
        self.layout_panels.get_mut(self.active_layout)
    }

    /// Pausing the keyboard drops every held modifier and publishes the
    /// empty mask.
    pub fn pause(&mut self, actions: &mut Vec<Action>)
        requires
            old(self).wf(),
        ensures
            final(self).wf(),
            final(self).active_layout == old(self).active_layout,
            final(self).auto_labels == old(self).auto_labels,
            final(self).model().ids == old(self).model().ids,
            final(self).model().default_state == old(self).model().default_state,
            ({
                let am = old(self).model().panels[old(self).active_layout.idx as int]->0;
                final(self).model().panels == old(self).model().panels.update(
                    old(self).active_layout.idx as int,
                    Some(StateModel { modifiers: 0, ..am }),
                )
            }),
            final(actions)@ == old(actions)@.push(Action::RouteModifiers { mask: 0 }),
    {
        let st = self.layout_panels.get_mut(self.active_layout);
        st.modifiers = 0;
        actions.push(Action::RouteModifiers { mask: 0 });
        proof {
            let am = old(self).model().panels[old(self).active_layout.idx as int]->0;
            assert(self.model().panels =~= old(self).model().panels.update(
                old(self).active_layout.idx as int,
                Some(StateModel { modifiers: 0, ..am }),
            ));
            assert forall|j: int| 0 <= j < self.layout_ids@.len() implies self
                .layout_panels.contains_id((#[trigger] self.layout_ids@[j]).1) by {
                assert(old(self).layout_panels.contains_id(old(self).layout_ids@[j].1));
            }
        }
    }
}

/// Whether a panel wants to render this frame.
#[derive(Clone, Copy, PartialEq, Eq, Structural, Debug)]
pub enum ShouldRender {
    Should,
    Can,
    Unable,
}

/// Right after a performed hot-swap the keyboard must redraw: a panel that
/// could render now must; one that cannot still cannot.
pub fn render_after_switch(s: ShouldRender) -> (r: ShouldRender)
    ensures
        r == (match s {
            ShouldRender::Should => ShouldRender::Should,
            ShouldRender::Can => ShouldRender::Should,
            ShouldRender::Unable => ShouldRender::Unable,
        }),
{
    match s {
        ShouldRender::Should => ShouldRender::Should,
        ShouldRender::Can => ShouldRender::Should,
        ShouldRender::Unable => ShouldRender::Unable,
    }
}

} // verus!
