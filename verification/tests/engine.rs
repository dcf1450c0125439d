use vkbd::keys::{
    alt_modifier_to_key, play_key_click, Action, AltModifier, CapType, PointerButton, ALT,
    AUTO_RELEASE_MODS, CAPS_LOCK, CTRL, META, NUM_LOCK, SHIFT, SUPER, VK_INSERT,
};
use vkbd::machine::{
    apply_prediction, chars_eq, handle_enter, handle_press, handle_release, lower_char,
    lower_label, KeyButtonData, KeyState, ReleaseOutcome,
};
use vkbd::state::{reap_processes, KeyboardState};

fn letter_key(vk: u32) -> KeyState {
    KeyState { data: KeyButtonData::Key { vk }, pressed: false, sticky: false }
}

fn label(s: &str) -> Vec<Vec<char>> {
    vec![s.chars().collect()]
}

fn swipe_state() -> KeyboardState {
    let mut kb = KeyboardState::new(0, false);
    kb.swipe_enabled = true;
    kb
}

#[test]
fn swipe_scenario_hey() {
    // Press "h" (seeds the buffer, not yet swiping), enter "e" (starts
    // swiping, buffer "he"), enter "y" (buffer "hey"), release: the
    // prediction request carries path "hey", the buffer is cleared, and the
    // top-ranked word plus a trailing space goes to the clipboard.
    let mut kb = swipe_state();
    let mut actions: Vec<Action> = Vec::new();
    let exited: Vec<bool> = Vec::new();

    let mut key_h = letter_key(43);
    handle_press(
        &mut key_h,
        CapType::Letter,
        &label("h"),
        &mut kb,
        PointerButton::Left,
        &exited,
        &mut actions,
    );
    assert_eq!(kb.current_swipe_input, vec!['h']);
    assert!(!kb.is_swiping);
    assert_eq!(kb.last_pressed_key_label, vec!['h']);
    assert!(actions.is_empty());

    let key_e = letter_key(18);
    handle_enter(&key_e, &label("e"), CapType::Letter, &mut kb);
    assert!(kb.is_swiping);
    assert_eq!(kb.current_swipe_input, vec!['h', 'e']);

    let mut key_y = letter_key(21);
    handle_enter(&key_y, &label("y"), CapType::Letter, &mut kb);
    assert_eq!(kb.current_swipe_input, vec!['h', 'e', 'y']);

    let outcome = handle_release(&mut key_y, CapType::Letter, &mut kb, &exited, &mut actions);
    match outcome {
        ReleaseOutcome::Predict { path, context } => {
            assert_eq!(path, vec!['h', 'e', 'y']);
            assert!(context.is_none());
        },
        ReleaseOutcome::Done { .. } => panic!("expected a prediction request"),
    }
    assert!(kb.current_swipe_input.is_empty());
    assert!(actions.is_empty());

    let ranked = vec!["hey".to_string(), "hex".to_string()];
    let consumed = apply_prediction(&mut kb, &ranked, &mut actions);
    assert!(consumed);
    assert_eq!(
        actions,
        vec![
            Action::SetClipboard { text: "hey ".to_string() },
            Action::RouteModifiers { mask: SHIFT },
            Action::RouteKey { vk: VK_INSERT, pressed: true },
            Action::RouteKey { vk: VK_INSERT, pressed: false },
            Action::RouteModifiers { mask: 0 },
        ]
    );
    assert_eq!(kb.last_swiped_word, Some("hey".to_string()));
}

#[test]
fn swipe_uses_last_word_as_context() {
    let mut kb = swipe_state();
    kb.last_swiped_word = Some("hello".to_string());
    let mut actions: Vec<Action> = Vec::new();
    let exited: Vec<bool> = Vec::new();

    let mut key_h = letter_key(43);
    handle_press(
        &mut key_h,
        CapType::Letter,
        &label("h"),
        &mut kb,
        PointerButton::Left,
        &exited,
        &mut actions,
    );
    let mut key_i = letter_key(23);
    handle_enter(&key_i, &label("i"), CapType::Letter, &mut kb);
    match handle_release(&mut key_i, CapType::Letter, &mut kb, &exited, &mut actions) {
        ReleaseOutcome::Predict { path, context } => {
            assert_eq!(path, vec!['h', 'i']);
            assert_eq!(context, Some("hello".to_string()));
        },
        ReleaseOutcome::Done { .. } => panic!("expected a prediction request"),
    }
}

#[test]
fn reentering_same_letter_while_swiping_appends_again() {
    // Entering the key the touch went down on does not start swiping, but
    // once swiping it still appends: a path may repeat a letter.
    let mut kb = swipe_state();
    let mut actions: Vec<Action> = Vec::new();
    let exited: Vec<bool> = Vec::new();

    let mut key_h = letter_key(43);
    handle_press(
        &mut key_h,
        CapType::Letter,
        &label("h"),
        &mut kb,
        PointerButton::Left,
        &exited,
        &mut actions,
    );
    handle_enter(&key_h, &label("h"), CapType::Letter, &mut kb);
    assert!(!kb.is_swiping);
    assert_eq!(kb.current_swipe_input, vec!['h']);

    let key_e = letter_key(18);
    handle_enter(&key_e, &label("e"), CapType::Letter, &mut kb);
    handle_enter(&key_h, &label("h"), CapType::Letter, &mut kb);
    assert_eq!(kb.current_swipe_input, vec!['h', 'e', 'h']);
}

#[test]
fn enter_ignores_non_letters_and_disabled_swipe() {
    // Without swipe support, or on a non-letter key, hover-enter changes
    // nothing.
    let mut kb = KeyboardState::new(0, false);
    kb.last_pressed_key_label = vec!['h'];
    let key_e = letter_key(18);
    handle_enter(&key_e, &label("e"), CapType::Letter, &mut kb);
    assert!(!kb.is_swiping);
    assert!(kb.current_swipe_input.is_empty());

    let mut kb = swipe_state();
    kb.last_pressed_key_label = vec!['h'];
    handle_enter(&key_e, &label("!"), CapType::Symbol, &mut kb);
    assert!(!kb.is_swiping);
    assert!(kb.current_swipe_input.is_empty());
}

#[test]
fn tap_scenario_h() {
    // Press "h" and release on the same key: a synthetic down+up for its
    // virtual key, and no prediction request.
    let mut kb = swipe_state();
    let mut actions: Vec<Action> = Vec::new();
    let exited: Vec<bool> = Vec::new();

    let mut key_h = letter_key(43);
    handle_press(
        &mut key_h,
        CapType::Letter,
        &label("h"),
        &mut kb,
        PointerButton::Left,
        &exited,
        &mut actions,
    );
    let outcome = handle_release(&mut key_h, CapType::Letter, &mut kb, &exited, &mut actions);
    match outcome {
        ReleaseOutcome::Done { consumed } => assert!(consumed),
        ReleaseOutcome::Predict { .. } => panic!("a tap must not ask for a prediction"),
    }
    assert_eq!(
        actions,
        vec![
            Action::RouteKey { vk: 43, pressed: true },
            Action::RouteKey { vk: 43, pressed: false },
            Action::PlayKeyClick,
        ]
    );
}

#[test]
fn sticky_modifier_cycle() {
    // First press with the bit unset: sticky, release is a no-op and the
    // bit stays; second press finds the bit set (not sticky), and only its
    // release clears the bit.
    let mut kb = KeyboardState::new(0, false);
    let mut key = KeyState {
        data: KeyButtonData::Modifier { modifier: CTRL },
        pressed: false,
        sticky: false,
    };
    let mut actions: Vec<Action> = Vec::new();
    let exited: Vec<bool> = Vec::new();

    handle_press(
        &mut key,
        CapType::Function,
        &label("ctrl"),
        &mut kb,
        PointerButton::Left,
        &exited,
        &mut actions,
    );
    assert!(key.sticky);
    assert_eq!(kb.modifiers, CTRL);

    match handle_release(&mut key, CapType::Function, &mut kb, &exited, &mut actions) {
        ReleaseOutcome::Done { consumed } => assert!(!consumed),
        _ => panic!("unexpected outcome"),
    }
    assert_eq!(kb.modifiers, CTRL);

    handle_press(
        &mut key,
        CapType::Function,
        &label("ctrl"),
        &mut kb,
        PointerButton::Left,
        &exited,
        &mut actions,
    );
    assert!(!key.sticky);
    assert_eq!(kb.modifiers, CTRL);

    match handle_release(&mut key, CapType::Function, &mut kb, &exited, &mut actions) {
        ReleaseOutcome::Done { consumed } => assert!(consumed),
        _ => panic!("unexpected outcome"),
    }
    assert_eq!(kb.modifiers, 0);
}

#[test]
fn auto_release_clears_whole_set() {
    // Whatever the mask held, an ordinary key release drops Shift, Ctrl,
    // Alt, Super and Meta, and keeps the rest (here the two lock bits).
    let mut kb = KeyboardState::new(0, false);
    kb.modifiers = SHIFT | CTRL | ALT | SUPER | META | CAPS_LOCK | NUM_LOCK;
    let mut key = letter_key(30);
    let mut actions: Vec<Action> = Vec::new();
    let exited: Vec<bool> = Vec::new();

    match handle_release(&mut key, CapType::Symbol, &mut kb, &exited, &mut actions) {
        ReleaseOutcome::Done { consumed } => assert!(consumed),
        _ => panic!("unexpected outcome"),
    }
    assert_eq!(kb.modifiers & AUTO_RELEASE_MODS, 0);
    assert_eq!(kb.modifiers, CAPS_LOCK | NUM_LOCK);
    assert_eq!(
        actions,
        vec![
            Action::RouteKey { vk: 30, pressed: false },
            Action::RouteModifiers { mask: CAPS_LOCK | NUM_LOCK },
        ]
    );
}

#[test]
fn press_with_secondary_button_asserts_shift() {
    let mut kb = KeyboardState::new(ALT, false);
    let mut key = letter_key(30);
    let mut actions: Vec<Action> = Vec::new();
    let exited: Vec<bool> = Vec::new();
    handle_press(
        &mut key,
        CapType::Symbol,
        &label("a"),
        &mut kb,
        PointerButton::Right,
        &exited,
        &mut actions,
    );
    assert_eq!(kb.modifiers, SHIFT);
    assert!(key.pressed);
    assert_eq!(
        actions,
        vec![
            Action::RouteModifiers { mask: SHIFT },
            Action::RouteKey { vk: 30, pressed: true },
            Action::PlayKeyClick,
        ]
    );
}

#[test]
fn press_with_middle_button_asserts_alt_modifier() {
    let mut kb = KeyboardState::new(META, false);
    let mut key = letter_key(30);
    let mut actions: Vec<Action> = Vec::new();
    let exited: Vec<bool> = Vec::new();
    handle_press(
        &mut key,
        CapType::Symbol,
        &label("a"),
        &mut kb,
        PointerButton::Middle,
        &exited,
        &mut actions,
    );
    assert_eq!(kb.modifiers, META);
}

#[test]
fn macro_key_replays_verbs() {
    let mut kb = KeyboardState::new(0, false);
    let mut key = KeyState {
        data: KeyButtonData::Macro { verbs: vec![(10, true), (10, false), (11, true)] },
        pressed: false,
        sticky: false,
    };
    let mut actions: Vec<Action> = Vec::new();
    let exited: Vec<bool> = Vec::new();
    handle_press(
        &mut key,
        CapType::Function,
        &label("m"),
        &mut kb,
        PointerButton::Left,
        &exited,
        &mut actions,
    );
    assert_eq!(
        actions,
        vec![
            Action::RouteKey { vk: 10, pressed: true },
            Action::RouteKey { vk: 10, pressed: false },
            Action::RouteKey { vk: 11, pressed: true },
            Action::PlayKeyClick,
        ]
    );
    match handle_release(&mut key, CapType::Function, &mut kb, &exited, &mut actions) {
        ReleaseOutcome::Done { consumed } => assert!(consumed),
        _ => panic!("unexpected outcome"),
    }
}

#[test]
fn exec_scenario_reaps_before_release_spawn() {
    // Touch-down spawns P (the host then records the child); after P has
    // exited, touch-up reaps it from the list before spawning R.
    let mut kb = KeyboardState::new(0, false);
    let mut key = KeyState {
        data: KeyButtonData::Exec {
            program: "p-prog".to_string(),
            args: vec!["x".to_string()],
            release_program: Some("r-prog".to_string()),
            release_args: Vec::new(),
        },
        pressed: false,
        sticky: false,
    };
    let mut actions: Vec<Action> = Vec::new();

    let exited: Vec<bool> = Vec::new();
    handle_press(
        &mut key,
        CapType::Function,
        &label("e"),
        &mut kb,
        PointerButton::Left,
        &exited,
        &mut actions,
    );
    assert_eq!(
        actions,
        vec![
            Action::Spawn { program: "p-prog".to_string(), args: vec!["x".to_string()] },
            Action::PlayKeyClick,
        ]
    );
    kb.note_spawned(1);
    assert_eq!(kb.processes, vec![1]);

    actions.clear();
    let exited = vec![true];
    match handle_release(&mut key, CapType::Function, &mut kb, &exited, &mut actions) {
        ReleaseOutcome::Done { consumed } => assert!(consumed),
        _ => panic!("unexpected outcome"),
    }
    assert_eq!(kb.processes, Vec::<u64>::new());
    assert_eq!(
        actions,
        vec![Action::Spawn { program: "r-prog".to_string(), args: Vec::new() }]
    );
    kb.note_spawned(2);
    assert_eq!(kb.processes, vec![2]);
}

#[test]
fn reap_keeps_survivors_in_order() {
    let mut procs: Vec<u64> = vec![5, 6, 7, 8];
    let exited = vec![true, false, true, false];
    reap_processes(&mut procs, &exited);
    assert_eq!(procs, vec![6, 8]);
}

#[test]
fn take_persists_exactly_four_fields() {
    let mut kb = KeyboardState::new(ALT, true);
    kb.modifiers = SHIFT;
    kb.processes = vec![9];
    kb.swipe_enabled = true;
    kb.current_swipe_input = vec!['a'];
    kb.last_pressed_key_label = vec!['a'];
    kb.is_swiping = true;
    kb.last_swiped_word = Some("ab".to_string());

    let moved = kb.take();
    assert_eq!(moved.modifiers, SHIFT);
    assert_eq!(moved.alt_modifier, ALT);
    assert_eq!(moved.processes, vec![9]);
    assert!(moved.clock_12h);
    assert!(!moved.swipe_enabled);
    assert!(moved.current_swipe_input.is_empty());
    assert!(moved.last_pressed_key_label.is_empty());
    assert!(!moved.is_swiping);
    assert!(moved.last_swiped_word.is_none());
    assert!(kb.processes.is_empty());
    assert_eq!(kb.modifiers, SHIFT);
}

#[test]
fn lowercase_letters() {
    assert_eq!(lower_char('H'), 'h');
    assert_eq!(lower_char('z'), 'z');
    assert_eq!(lower_char('-'), '-');
    assert_eq!(lower_label(&vec!['H', 'E', 'y', '1']), vec!['h', 'e', 'y', '1']);
}

#[test]
fn chars_eq_compares_contents() {
    assert!(chars_eq(&vec!['a', 'b'], &vec!['a', 'b']));
    assert!(!chars_eq(&vec!['a', 'b'], &vec!['a', 'c']));
    assert!(!chars_eq(&vec!['a'], &vec!['a', 'b']));
}

#[test]
fn alt_modifier_mapping() {
    assert_eq!(alt_modifier_to_key(AltModifier::Shift), SHIFT);
    assert_eq!(alt_modifier_to_key(AltModifier::Ctrl), CTRL);
    assert_eq!(alt_modifier_to_key(AltModifier::Alt), ALT);
    assert_eq!(alt_modifier_to_key(AltModifier::Super), SUPER);
    assert_eq!(alt_modifier_to_key(AltModifier::Meta), META);
    assert_eq!(alt_modifier_to_key(AltModifier::Disabled), 0);
}

#[test]
fn key_click_appends_feedback() {
    let mut actions = vec![Action::RouteModifiers { mask: 0 }];
    play_key_click(&mut actions);
    assert_eq!(actions[1], Action::PlayKeyClick);
}
