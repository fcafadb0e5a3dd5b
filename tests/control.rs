use soundboard::{
    draw_effect, find_matching, format_time_left, map_key, name_matches_query, pick_effect,
    playback_status, Action, ActionSlot, HotkeyHandler, Key, Keybind, StateStatus, TermKey,
};

#[test]
fn time_label_is_padded_to_four_columns() {
    assert_eq!(format_time_left(0), "0s  ");
    assert_eq!(format_time_left(7), "7s  ");
    assert_eq!(format_time_left(42), "42s ");
    assert_eq!(format_time_left(137), "137s");
    assert_eq!(format_time_left(12345), "12345s");
}

#[test]
fn status_keeps_the_most_pressing() {
    let mut s = StateStatus::Unaffected;
    s |= StateStatus::IdleRender;
    assert_eq!(s, StateStatus::IdleRender);
    s |= StateStatus::Updated;
    assert_eq!(s, StateStatus::Updated);
    s |= StateStatus::IdleRender;
    assert_eq!(s, StateStatus::Updated);
    s |= StateStatus::Quit;
    s |= StateStatus::IgnoreNextKeyPress;
    assert_eq!(s, StateStatus::Quit);
}

#[test]
fn last_command_wins() {
    let mut slot = ActionSlot::new();
    slot.post(Action::SkipToPart);
    slot.post(Action::StopSfx);
    assert_eq!(slot.take(), Action::StopSfx);
    assert_eq!(slot.take(), Action::Idle);
}

#[test]
fn search_finds_first_match_ignoring_case() {
    let names = vec![
        String::from("Airhorn"),
        String::from("Vine Boom"),
        String::from("boom box"),
    ];
    assert_eq!(find_matching(&names, "BOOM"), Some(1));
    assert_eq!(find_matching(&names, "horn"), Some(0));
    assert_eq!(find_matching(&names, "xyz"), None);
    assert_eq!(find_matching(&names, ""), Some(0));
    assert_eq!(find_matching(&Vec::new(), "a"), None);
}

#[test]
fn random_pick_finds_effect_by_name() {
    let candidates = vec![String::from("b"), String::from("zz")];
    let names = vec![String::from("a"), String::from("b"), String::from("b")];
    assert_eq!(pick_effect(&candidates, &names, 0), Some(1));
    assert_eq!(pick_effect(&candidates, &names, 1), None);
}

#[test]
fn player_status_follows_the_session() {
    assert_eq!(playback_status(false, true), (StateStatus::Unaffected, false));
    assert_eq!(playback_status(true, false), (StateStatus::Updated, true));
    assert_eq!(playback_status(true, true), (StateStatus::IdleRender, false));
}

#[test]
fn terminal_keys_map_to_global_keys() {
    assert_eq!(map_key(TermKey::F(1)), Some(Key::F1));
    assert_eq!(map_key(TermKey::F(12)), Some(Key::F12));
    assert_eq!(map_key(TermKey::Char('g')), Some(Key::KeyG));
    assert_eq!(map_key(TermKey::Char('7')), Some(Key::Num7));
    assert_eq!(map_key(TermKey::Char('G')), None);
    assert_eq!(map_key(TermKey::Enter), Some(Key::Return));
    assert_eq!(map_key(TermKey::Esc), Some(Key::Escape));
    assert_eq!(map_key(TermKey::Other), None);
}

#[test]
fn hotkey_needs_its_modifiers() {
    let mut h = HotkeyHandler::new();
    h.set_keybinds(vec![
        Keybind::default_keybind(Key::KeyS, Action::StopSfx),
        Keybind::default_keybind(Key::KeyT, Action::SearchAndPlay),
    ]);
    assert_eq!(h.emit_event(Key::KeyS, true), None);
    assert_eq!(h.emit_event(Key::ControlLeft, true), None);
    assert_eq!(h.emit_event(Key::Alt, true), None);
    assert_eq!(h.emit_event(Key::KeyS, true), Some(Action::StopSfx));
    assert_eq!(h.emit_event(Key::KeyS, false), None);
    assert_eq!(h.emit_event(Key::ShiftRight, true), None);
    assert_eq!(h.emit_event(Key::KeyS, true), None);
}

#[test]
fn newer_binding_of_a_combination_wins() {
    let mut h = HotkeyHandler::new();
    h.set_keybinds(vec![Keybind::default_keybind(Key::KeyY, Action::SkipToPart)]);
    h.set_keybinds(vec![Keybind::default_keybind(Key::KeyY, Action::ToggleShitMic)]);
    h.emit_event(Key::ControlRight, true);
    h.emit_event(Key::Alt, true);
    assert_eq!(h.emit_event(Key::KeyY, true), Some(Action::ToggleShitMic));
}

#[test]
fn random_draw_from_one_candidate_is_that_effect() {
    let mut rng = rand::rng();
    let candidates = vec![String::from("boom")];
    let names = vec![String::from("horn"), String::from("boom")];
    for _ in 0..10 {
        assert_eq!(draw_effect(&mut rng, &candidates, &names), Some(1));
    }
    let missing = vec![String::from("none")];
    assert_eq!(draw_effect(&mut rng, &missing, &names), None);
}

#[test]
fn single_name_match_ignores_case() {
    assert!(name_matches_query("Vine BOOM", "boom"));
    assert!(!name_matches_query("Vine", "boom"));
    assert!(name_matches_query("abc", ""));
}
