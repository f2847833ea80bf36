use runemap::keymap::{default_table_vec, generate_mapping, CharacterEntry, KeyMapper};
use runemap::modifiers::ModifierSnapshot;

fn mods(ctrl: bool, alt: bool, left_shift: bool, right_shift: bool, caps: bool) -> ModifierSnapshot {
    ModifierSnapshot {
        ctrl,
        alt,
        left_shift,
        right_shift,
        win_left: false,
        win_right: false,
        caps_lock_on: caps,
    }
}

fn plain() -> ModifierSnapshot {
    ModifierSnapshot::none_held()
}

#[test]
fn snapshot_queries() {
    assert!(!plain().is_any_strong_modifier_down());
    assert!(!plain().is_shift_down());
    assert!(!plain().is_caps_lock_engaged());
    let ctrl = mods(true, false, false, false, false);
    assert!(ctrl.is_any_strong_modifier_down());
    let shifted = mods(false, false, false, true, true);
    assert!(shifted.is_shift_down());
    assert!(shifted.is_caps_lock_engaged());
    assert!(!shifted.is_any_strong_modifier_down());
}

#[test]
fn lookup_lowercase_and_uppercase() {
    let mapper = generate_mapping();
    assert_eq!(mapper.lookup('A', false), Some('ᚨ'));
    assert_eq!(mapper.lookup('A', true), Some('ᚪ'));
    assert_eq!(mapper.lookup('Z', false), Some('ᛇ'));
    assert_eq!(mapper.lookup('Z', true), Some('ᛢ'));
    assert_eq!(mapper.lookup('5', false), Some('5'));
    assert_eq!(mapper.lookup('5', true), Some('↠'));
}

#[test]
fn lookup_absent_source() {
    let mapper = generate_mapping();
    assert_eq!(mapper.lookup(' ', false), None);
    assert_eq!(mapper.lookup(' ', true), None);
    assert_eq!(mapper.lookup('a', false), None);
}

#[test]
fn map_key_case_selection() {
    let mapper = generate_mapping();
    // Neither shift nor caps: lowercase substitute.
    assert_eq!(mapper.map_key('A', false, &plain(), true), Some('ᚨ'));
    // Shift alone: uppercase substitute.
    assert_eq!(mapper.map_key('A', true, &plain(), true), Some('ᚪ'));
    // Caps alone: uppercase substitute.
    let caps = mods(false, false, false, false, true);
    assert_eq!(mapper.map_key('A', false, &caps, true), Some('ᚪ'));
    // Shift and caps cancel: lowercase substitute.
    assert_eq!(mapper.map_key('A', true, &caps, true), Some('ᚨ'));
}

#[test]
fn map_key_strong_modifiers_suppress() {
    let mapper = generate_mapping();
    let ctrl = mods(true, false, false, false, false);
    let alt = mods(false, true, false, false, false);
    let mut win_l = plain();
    win_l.win_left = true;
    let mut win_r = plain();
    win_r.win_right = true;
    assert_eq!(mapper.map_key('A', false, &ctrl, true), None);
    assert_eq!(mapper.map_key('A', true, &alt, true), None);
    assert_eq!(mapper.map_key('A', false, &win_l, true), None);
    assert_eq!(mapper.map_key('A', false, &win_r, true), None);
}

#[test]
fn map_key_disabled_suppresses() {
    let mapper = generate_mapping();
    assert_eq!(mapper.map_key('A', false, &plain(), false), None);
    assert_eq!(mapper.map_key('A', true, &plain(), false), None);
}

#[test]
fn add_mapping_last_write_wins() {
    let mut mapper = KeyMapper::new();
    mapper.add_mapping('A', 'x', 'y');
    mapper.add_mapping('A', 'p', 'q');
    assert_eq!(mapper.lookup('A', false), Some('p'));
    assert_eq!(mapper.lookup('A', true), Some('q'));
}

#[test]
fn contains_source_reports_presence() {
    let mut mapper = KeyMapper::new();
    assert!(!mapper.contains_source('A'));
    mapper.add_mapping('A', 'x', 'y');
    assert!(mapper.contains_source('A'));
    assert!(!mapper.contains_source('B'));
}

#[test]
fn build_reports_duplicates_and_last_wins() {
    let table = vec![
        CharacterEntry::new('A', 'x', 'y'),
        CharacterEntry::new('B', 'u', 'v'),
        CharacterEntry::new('A', 'p', 'q'),
    ];
    let (mapper, had_duplicate) = KeyMapper::build(&table);
    assert!(had_duplicate);
    assert_eq!(mapper.lookup('A', false), Some('p'));
    assert_eq!(mapper.lookup('A', true), Some('q'));
    assert_eq!(mapper.lookup('B', false), Some('u'));
}

#[test]
fn build_without_duplicates() {
    let table = vec![CharacterEntry::new('A', 'x', 'y'), CharacterEntry::new('B', 'u', 'v')];
    let (mapper, had_duplicate) = KeyMapper::build(&table);
    assert!(!had_duplicate);
    assert_eq!(mapper.lookup('A', false), Some('x'));
}

#[test]
fn build_empty_table() {
    let table: Vec<CharacterEntry> = Vec::new();
    let (mapper, had_duplicate) = KeyMapper::build(&table);
    assert!(!had_duplicate);
    assert_eq!(mapper.lookup('A', false), None);
}

#[test]
fn default_table_has_no_duplicate_sources() {
    let (_, had_duplicate) = KeyMapper::build(&default_table_vec());
    assert!(!had_duplicate);
}
