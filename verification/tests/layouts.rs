use vkbd::arena::Arena;
use vkbd::backend::{render_after_switch, KeyboardBackend, ShouldRender};
use vkbd::geometry::{
    build_key_to_char_point_map, geometry_lookup, KeyDef, KeySlot, LayoutDesc,
};
use vkbd::keymap::{
    choose_initial_keymap, classify_ime_scheme, effective_keymap_source, is_known_ime_alias,
    split_layout_variant, Keymap, KeymapSource, SchemeClass,
};
use vkbd::keys::{Action, CapType, SHIFT};

fn letter_slot(width: u32, s: &str) -> KeySlot {
    KeySlot {
        width,
        key: Some(KeyDef {
            cap_type: CapType::Letter,
            labels: vec![s.chars().collect()],
            altgr_labels: None,
        }),
    }
}

fn spacer(width: u32) -> KeySlot {
    KeySlot { width, key: None }
}

fn symbol_slot(width: u32, s: &str) -> KeySlot {
    KeySlot {
        width,
        key: Some(KeyDef {
            cap_type: CapType::Symbol,
            labels: vec![s.chars().collect()],
            altgr_labels: None,
        }),
    }
}

#[test]
fn geometry_positions_accumulate_widths_and_rows() {
    let layout = LayoutDesc {
        rows: vec![
            vec![letter_slot(2, "Q"), letter_slot(3, "W"), symbol_slot(1, "!")],
            vec![spacer(1), letter_slot(4, "a")],
        ],
        row_height: 10,
    };
    let map = build_key_to_char_point_map(&layout, false);
    // Only the three letter keys contribute, upper-case labels lowered.
    assert_eq!(map.len(), 3);
    assert_eq!(geometry_lookup(&map, 'q'), Some((0, 0)));
    assert_eq!(geometry_lookup(&map, 'w'), Some((2, 0)));
    assert_eq!(geometry_lookup(&map, 'a'), Some((1, 10)));
    assert_eq!(geometry_lookup(&map, '!'), None);
    assert_eq!(geometry_lookup(&map, 'z'), None);
}

#[test]
fn geometry_duplicate_letter_last_visit_wins() {
    let layout = LayoutDesc {
        rows: vec![
            vec![letter_slot(2, "q"), letter_slot(2, "w")],
            vec![letter_slot(5, "q")],
        ],
        row_height: 1,
    };
    let map = build_key_to_char_point_map(&layout, false);
    assert_eq!(geometry_lookup(&map, 'q'), Some((0, 1)));
    assert_eq!(geometry_lookup(&map, 'w'), Some((2, 0)));
}

#[test]
fn geometry_altgr_labels_take_over() {
    let slot = KeySlot {
        width: 1,
        key: Some(KeyDef {
            cap_type: CapType::Letter,
            labels: vec![vec!['a']],
            altgr_labels: Some(vec![vec!['b']]),
        }),
    };
    let layout = LayoutDesc { rows: vec![vec![slot]], row_height: 1 };
    let map = build_key_to_char_point_map(&layout, true);
    assert_eq!(geometry_lookup(&map, 'b'), Some((0, 0)));
    assert_eq!(geometry_lookup(&map, 'a'), None);
}

#[test]
fn classify_keyboard_schemes() {
    match classify_ime_scheme(&"keyboard-us".to_string()) {
        SchemeClass::Keyboard { layout, variant } => {
            assert_eq!(layout, "us");
            assert_eq!(variant, "");
        },
        _ => panic!("expected a keyboard scheme"),
    }
    match classify_ime_scheme(&"keyboard-us-intl".to_string()) {
        SchemeClass::Keyboard { layout, variant } => {
            assert_eq!(layout, "us");
            assert_eq!(variant, "intl");
        },
        _ => panic!("expected a keyboard scheme"),
    }
}

#[test]
fn classify_ime_and_unknown_schemes() {
    assert!(matches!(classify_ime_scheme(&"mozc".to_string()), SchemeClass::KnownIme));
    assert!(matches!(classify_ime_scheme(&"pinyin".to_string()), SchemeClass::KnownIme));
    assert!(matches!(
        classify_ime_scheme(&"somethingelse".to_string()),
        SchemeClass::Unknown
    ));
    // Anchors: extra dashed parts or empty parts do not parse as keyboard
    // schemes.
    assert!(matches!(
        classify_ime_scheme(&"keyboard-us-intl-x".to_string()),
        SchemeClass::Unknown
    ));
    assert!(matches!(classify_ime_scheme(&"keyboard-".to_string()), SchemeClass::Unknown));
    assert!(matches!(
        classify_ime_scheme(&"keyboard-us-".to_string()),
        SchemeClass::Unknown
    ));
    assert!(matches!(
        classify_ime_scheme(&"xkeyboard-us".to_string()),
        SchemeClass::Unknown
    ));
}

#[test]
fn effective_source_falls_back_to_system() {
    // A failed IME query, a known IME, and an unknown scheme all fall back
    // to the system keymap; only a keyboard scheme yields a layout.
    assert!(matches!(effective_keymap_source(None), KeymapSource::System));
    assert!(matches!(
        effective_keymap_source(Some("hangul".to_string())),
        KeymapSource::System
    ));
    assert!(matches!(
        effective_keymap_source(Some("not-a-scheme".to_string())),
        KeymapSource::System
    ));
    match effective_keymap_source(Some("keyboard-de-neo".to_string())) {
        KeymapSource::FromIme { layout, variant } => {
            assert_eq!(layout, "de");
            assert_eq!(variant, "neo");
        },
        KeymapSource::System => panic!("expected a keyboard scheme"),
    }
}

#[test]
fn known_ime_alias_list() {
    for s in ["mozc", "pinyin", "hangul", "sayura", "unikey"] {
        assert!(is_known_ime_alias(&s.to_string()));
    }
    assert!(!is_known_ime_alias(&"fcitx".to_string()));
}

#[test]
fn split_default_keymap_entries() {
    let (l, v) = split_layout_variant(&"us-intl".chars().collect());
    assert_eq!(l, "us".chars().collect::<Vec<char>>());
    assert_eq!(v, "intl".chars().collect::<Vec<char>>());

    let (l, v) = split_layout_variant(&"us".chars().collect());
    assert_eq!(l, "us".chars().collect::<Vec<char>>());
    assert!(v.is_empty());

    let (l, v) = split_layout_variant(&"a-b-c".chars().collect());
    assert_eq!(l, vec!['a']);
    assert_eq!(v, vec!['b']);
}

#[test]
fn initial_keymap_choice() {
    let eff = Keymap { name: Some("us".to_string()), variant: String::new(), has_altgr: false };
    let fall = Keymap { name: Some("de".to_string()), variant: String::new(), has_altgr: false };
    let r = choose_initial_keymap(Some(eff.clone()), Some(fall.clone()), true);
    assert_eq!(r.unwrap().name, Some("us".to_string()));
    let r = choose_initial_keymap(None, Some(fall.clone()), true);
    assert_eq!(r.unwrap().name, Some("de".to_string()));
    let r = choose_initial_keymap(Some(eff), Some(fall), false);
    assert!(r.is_none());
}

fn keymap(name: &str) -> Keymap {
    Keymap { name: Some(name.to_string()), variant: String::new(), has_altgr: false }
}

#[test]
fn switch_to_same_keymap_twice_is_idempotent() {
    let us = keymap("us");
    let de = keymap("de");
    let mut b = KeyboardBackend::create(0, false, true, Some(&us), true);
    let mut actions: Vec<Action> = Vec::new();

    // A new layout name builds a panel and switches.
    assert!(b.switch_keymap(&de, true, &mut actions));
    assert_eq!(actions, vec![Action::NotifyLayoutChanged]);
    let active_after_first = b.active_layout;
    let panels_after_first = b.layout_panels.slot_count();
    let names_after_first = b.layout_ids.len();

    // The second switch to the same keymap does nothing and reports false.
    actions.clear();
    assert!(!b.switch_keymap(&de, true, &mut actions));
    assert!(actions.is_empty());
    assert_eq!(b.active_layout, active_after_first);
    assert_eq!(b.layout_panels.slot_count(), panels_after_first);
    assert_eq!(b.layout_ids.len(), names_after_first);

    // Switching back to a cached layout reuses its panel.
    assert!(b.switch_keymap(&us, true, &mut actions));
    assert_eq!(b.layout_panels.slot_count(), panels_after_first);
}

#[test]
fn switch_respects_auto_labels_and_names() {
    let us = keymap("us");
    let mut b = KeyboardBackend::create(0, false, false, Some(&us), true);
    let mut actions: Vec<Action> = Vec::new();
    // Automatic labelling disabled: never switches.
    assert!(!b.switch_keymap(&keymap("de"), true, &mut actions));
    assert!(actions.is_empty());

    let mut b = KeyboardBackend::create(0, false, true, Some(&us), true);
    // A keymap without a layout name cannot be switched to.
    let unnamed = Keymap { name: None, variant: String::new(), has_altgr: false };
    assert!(!b.switch_keymap(&unnamed, true, &mut actions));
    assert!(actions.is_empty());
}

#[test]
fn switch_transfers_persisted_state() {
    let us = keymap("us");
    let mut b = KeyboardBackend::create(7, true, true, Some(&us), true);
    b.active_state_mut().modifiers = SHIFT;
    b.active_state_mut().is_swiping = true;
    b.active_state_mut().current_swipe_input = vec!['h'];
    b.active_state_mut().note_spawned(4);

    let mut actions: Vec<Action> = Vec::new();
    assert!(b.switch_keymap(&keymap("de"), false, &mut actions));
    let st = b.active_state();
    assert_eq!(st.modifiers, SHIFT);
    assert_eq!(st.alt_modifier, 7);
    assert!(st.clock_12h);
    assert_eq!(st.processes, vec![4]);
    // Swipe-related fields are rebuilt fresh for the entering layout.
    assert!(!st.swipe_enabled);
    assert!(!st.is_swiping);
    assert!(st.current_swipe_input.is_empty());
    assert!(st.last_swiped_word.is_none());
}

#[test]
fn pause_drops_modifiers() {
    let us = keymap("us");
    let mut b = KeyboardBackend::create(0, false, true, Some(&us), true);
    b.active_state_mut().modifiers = SHIFT;
    let mut actions: Vec<Action> = Vec::new();
    b.pause(&mut actions);
    assert_eq!(b.active_state().modifiers, 0);
    assert_eq!(actions, vec![Action::RouteModifiers { mask: 0 }]);
}

#[test]
fn render_mapping_after_switch() {
    assert_eq!(render_after_switch(ShouldRender::Should), ShouldRender::Should);
    assert_eq!(render_after_switch(ShouldRender::Can), ShouldRender::Should);
    assert_eq!(render_after_switch(ShouldRender::Unable), ShouldRender::Unable);
}

#[test]
fn arena_identities_stay_valid() {
    let mut a: Arena<u32> = Arena::new();
    let i1 = a.insert(10);
    let i2 = a.insert(20);
    assert_ne!(i1, i2);
    assert_eq!(*a.get(i1), 10);
    assert_eq!(*a.get(i2), 20);
    *a.get_mut(i1) = 11;
    assert_eq!(*a.get(i1), 11);
    let removed = a.remove(i1);
    assert_eq!(removed, 11);
    // Insertions never disturb other identities.
    let i3 = a.insert(30);
    assert_eq!(*a.get(i2), 20);
    assert_eq!(*a.get(i3), 30);
}
