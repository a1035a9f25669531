use kime::hotkeys::{build_hotkey_tables, merge_hotkeys, HotkeyTables};
use kime::profile::Profile;

#[test]
fn own_binding_wins_and_globals_fill_in_sorted() {
    let specific = vec![(2u64, 'a'), (5, 'b')];
    let global = vec![(1u64, 'x'), (2, 'y'), (7, 'z')];
    assert_eq!(
        merge_hotkeys(&specific, &global),
        vec![(1, 'x'), (2, 'a'), (5, 'b'), (7, 'z')]
    );
}

#[test]
fn empty_sides_merge_to_the_other() {
    let empty: Vec<(u64, u8)> = Vec::new();
    let global = vec![(3u64, 1u8), (4, 2)];
    assert_eq!(merge_hotkeys(&empty, &global), global);
    assert_eq!(merge_hotkeys(&global, &empty), global);
    assert_eq!(merge_hotkeys(&empty, &empty), empty);
}

#[test]
fn tables_are_built_per_category() {
    let specific = vec![vec![(9u64, 1u8)], Vec::new()];
    let global = vec![(9u64, 2u8), (10, 3)];
    let tables = build_hotkey_tables(&specific, &global);
    assert_eq!(tables, vec![vec![(9, 1), (10, 3)], vec![(9, 2), (10, 3)]]);
}

#[test]
fn configured_hotkeys_follow_the_profile() {
    let categories = vec![vec![(100u64, 0u8)]];
    let modes = vec![vec![(200u64, 0u8)]];
    let global = vec![(300u64, 0u8)];
    let game_global = vec![(400u64, 0u8)];
    let tables = HotkeyTables::build(&categories, &modes, &global, &game_global);
    assert!(tables.is_configured_hotkey(Profile::Normal, 100));
    assert!(tables.is_configured_hotkey(Profile::Normal, 200));
    assert!(tables.is_configured_hotkey(Profile::Normal, 300));
    assert!(!tables.is_configured_hotkey(Profile::Normal, 400));
    assert!(tables.is_configured_hotkey(Profile::Game, 400));
    assert!(tables.is_configured_hotkey(Profile::Game, 100));
    assert!(!tables.is_configured_hotkey(Profile::Game, 300));
    assert!(!tables.is_configured_hotkey(Profile::Game, 500));
}

#[test]
fn modifiers_and_hotkeys_never_repeat() {
    let categories = vec![vec![(100u64, 0u8)]];
    let modes: Vec<Vec<(u64, u8)>> = Vec::new();
    let tables = HotkeyTables::build(&categories, &modes, &Vec::new(), &vec![(7u64, 0u8)]);
    assert!(tables.can_repeat(Profile::Normal, 5, false));
    assert!(!tables.can_repeat(Profile::Normal, 5, true));
    assert!(!tables.can_repeat(Profile::Normal, 100, false));
    assert!(tables.can_repeat(Profile::Normal, 7, false));
    assert!(!tables.can_repeat(Profile::Game, 7, false));
}
