use polartales::mode_manager::{Effect, Key, Mode, ModeManager, Modifiers, NamedKey};
use polartales::note_editors::{ExitPlan, NoteEditors};
use polartales::savestate::{Savefile, SavefileLogEntry};
use polartales::text::{decimal_string, parse_index};

fn ch(s: &str) -> Key {
    Key::Character(s.to_string())
}

fn plain() -> Modifiers {
    Modifiers { control: false }
}

fn ctrl() -> Modifiers {
    Modifiers { control: true }
}

fn entry(notes: &str, minutes: u64) -> SavefileLogEntry {
    SavefileLogEntry { notes: notes.to_string(), minutes_spent: minutes }
}

fn saved(entries: Vec<SavefileLogEntry>, last_exit: u64, focus: Option<u64>) -> Savefile {
    Savefile { log_entries: entries, unix_time_last_exit: last_exit, last_focused_idx: focus }
}

fn expect_exit(effect: Effect) -> ExitPlan {
    match effect {
        Effect::Exit(plan) => plan,
        _ => panic!("expected an exit"),
    }
}

fn expect_focus(effect: Effect) -> u64 {
    match effect {
        Effect::Focus(id) => id,
        _ => panic!("expected a focus request"),
    }
}

fn expect_noop(effect: Effect) {
    assert!(matches!(effect, Effect::NoOp));
}

#[test]
fn create_edit_reselect_and_save_scenario() {
    let mut editors = NoteEditors::new(Savefile::empty(1_000));
    let mut modes = ModeManager::new();
    assert_eq!(modes.active_mode(), Mode::Command);

    let id = expect_focus(modes.handle_keypress(ch("n"), plain(), &mut editors, 1_001));
    assert_eq!(modes.active_mode(), Mode::Edit);
    assert_eq!(editors.len(), 1);
    assert_eq!(editors.last_focused_id(), Some(id));

    editors.perform_editor_action(id, "hello".to_string());
    expect_noop(modes.handle_keypress(Key::Named(NamedKey::Escape), plain(), &mut editors, 1_002));
    assert_eq!(modes.active_mode(), Mode::Command);

    expect_noop(modes.handle_keypress(ch("e"), plain(), &mut editors, 1_003));
    assert_eq!(modes.active_mode(), Mode::SelectEdit);
    assert_eq!(expect_focus(modes.handle_keypress(ch("0"), plain(), &mut editors, 1_004)), id);
    assert_eq!(modes.active_mode(), Mode::Edit);

    let plan = expect_exit(modes.handle_keypress(ch("s"), ctrl(), &mut editors, 1_030));
    assert_eq!(modes.active_mode(), Mode::Exit);
    let sf = plan.savefile;
    assert_eq!(sf.log_entries.len(), 1);
    assert_eq!(sf.log_entries[0].notes, "hello");
    assert_eq!(sf.log_entries[0].minutes_spent, 0);
    assert_eq!(sf.last_focused_idx, Some(0));
    assert_eq!(sf.unix_time_last_exit, 1_030);
    assert!(plan.clipboard.is_none());
}

#[test]
fn focus_index_past_the_end_is_dropped_on_load() {
    let editors = NoteEditors::new(saved(vec![entry("a", 1), entry("b", 2)], 10, Some(5)));
    assert_eq!(editors.len(), 2);
    assert_eq!(editors.last_focused_id(), None);
    assert_eq!(editors.focus_mru_entry(), None);
}

#[test]
fn exit_with_no_notes_saves_an_empty_list() {
    let mut editors = NoteEditors::new(Savefile::empty(500));
    let mut modes = ModeManager::new();
    let plan = expect_exit(modes.handle_keypress(ch("x"), plain(), &mut editors, 600));
    assert_eq!(modes.active_mode(), Mode::Exit);
    assert!(plan.savefile.log_entries.is_empty());
    assert_eq!(plan.savefile.last_focused_idx, None);
    assert_eq!(plan.savefile.unix_time_last_exit, 600);
    assert!(plan.savefile.is_valid());
    assert_eq!(plan.clipboard, Some(String::new()));
}

#[test]
fn added_notes_get_consecutive_positions_and_distinct_ids() {
    let mut editors = NoteEditors::new(Savefile::empty(0));
    let a = editors.add_note();
    let b = editors.add_note();
    let c = editors.add_note();
    assert_eq!((a, b, c), (0, 1, 2));
    assert_eq!(editors.len(), 3);
    assert_eq!(editors.last_focused_id(), Some(c));
    assert_eq!(editors.text_at(2), Some(String::new()));
}

#[test]
fn added_note_follows_loaded_notes() {
    let mut editors = NoteEditors::new(saved(vec![entry("a", 0), entry("b", 0)], 0, None));
    assert_eq!(editors.add_note(), 2);
    assert_eq!(editors.focus_mru_entry(), Some(2));
}

#[test]
fn save_then_load_keeps_text_order_and_focus() {
    let mut editors = NoteEditors::new(Savefile::empty(100));
    let a = editors.add_note();
    let b = editors.add_note();
    editors.perform_editor_action(a, "first".to_string());
    editors.perform_editor_action(b, "second\nline".to_string());
    let plan = editors.save_and_exit(false, 130);
    let reloaded = NoteEditors::new(plan.savefile);
    assert_eq!(reloaded.len(), 2);
    assert_eq!(reloaded.text_at(0), Some("first".to_string()));
    assert_eq!(reloaded.text_at(1), Some("second\nline".to_string()));
    assert_eq!(reloaded.last_focused_id(), Some(b));
}

#[test]
fn focus_past_the_end_changes_nothing() {
    let mut editors = NoteEditors::new(saved(vec![entry("a", 0), entry("b", 0)], 0, Some(1)));
    assert_eq!(editors.focus_entry(2), None);
    assert_eq!(editors.focus_entry(usize::MAX), None);
    assert_eq!(editors.last_focused_id(), Some(1));
    assert_eq!(editors.focus_entry(0), Some(0));
    assert_eq!(editors.last_focused_id(), Some(0));
}

#[test]
fn select_edit_with_non_index_falls_back_to_command() {
    for key in ["a", "-1", "", "+", " 1", "1a"] {
        let mut editors = NoteEditors::new(saved(vec![entry("a", 0)], 0, Some(0)));
        let mut modes = ModeManager::new();
        expect_noop(modes.handle_keypress(ch("e"), plain(), &mut editors, 0));
        expect_noop(modes.handle_keypress(ch(key), plain(), &mut editors, 0));
        assert_eq!(modes.active_mode(), Mode::Command);
        assert_eq!(editors.last_focused_id(), Some(0));
    }
}

#[test]
fn select_edit_with_index_out_of_range_falls_back_to_command() {
    let mut editors = NoteEditors::new(saved(vec![entry("a", 0)], 0, None));
    let mut modes = ModeManager::new();
    expect_noop(modes.handle_keypress(ch("e"), plain(), &mut editors, 0));
    expect_noop(modes.handle_keypress(ch("1"), plain(), &mut editors, 0));
    assert_eq!(modes.active_mode(), Mode::Command);
    assert_eq!(editors.last_focused_id(), None);
}

#[test]
fn edit_mode_keeps_mode_without_control() {
    let mut editors = NoteEditors::new(Savefile::empty(0));
    let mut modes = ModeManager::new();
    expect_focus(modes.handle_keypress(ch("n"), plain(), &mut editors, 0));
    for key in ["s", "x", "e", "n", "0", "q"] {
        expect_noop(modes.handle_keypress(ch(key), plain(), &mut editors, 0));
        assert_eq!(modes.active_mode(), Mode::Edit);
    }
    expect_noop(modes.handle_keypress(ch("q"), ctrl(), &mut editors, 0));
    assert_eq!(modes.active_mode(), Mode::Edit);
    assert_eq!(editors.len(), 1);
}

#[test]
fn backward_clock_keeps_stored_minutes() {
    let editors = NoteEditors::new(saved(vec![entry("a", 5), entry("b", 7)], 10_000, Some(0)));
    let plan = editors.save_and_exit(false, 4_000);
    assert_eq!(plan.savefile.log_entries[0].minutes_spent, 5);
    assert_eq!(plan.savefile.log_entries[1].minutes_spent, 7);
    assert_eq!(plan.savefile.unix_time_last_exit, 4_000);
}

#[test]
fn session_is_credited_to_the_focused_note_only() {
    let editors = NoteEditors::new(saved(vec![entry("a", 2), entry("b", 3)], 1_000, Some(0)));
    let plan = editors.save_and_exit(false, 1_150);
    assert_eq!(plan.savefile.log_entries[0].minutes_spent, 4);
    assert_eq!(plan.savefile.log_entries[1].minutes_spent, 3);
    assert_eq!(plan.savefile.last_focused_idx, Some(0));
}

#[test]
fn no_focus_credits_nobody() {
    let editors = NoteEditors::new(saved(vec![entry("a", 2)], 0, None));
    let plan = editors.save_and_exit(false, 100_000);
    assert_eq!(plan.savefile.log_entries[0].minutes_spent, 2);
    assert_eq!(plan.savefile.last_focused_idx, None);
}

#[test]
fn minutes_are_held_at_the_largest_count() {
    let editors = NoteEditors::new(saved(vec![entry("a", u64::MAX)], 0, Some(0)));
    let plan = editors.save_and_exit(false, u64::MAX);
    assert_eq!(plan.savefile.log_entries[0].minutes_spent, u64::MAX);
}

#[test]
fn clipboard_summary_lists_minutes_and_notes() {
    let sf = saved(vec![entry("write report", 3), entry("", 0), entry("call", 120)], 0, None);
    assert_eq!(sf.clipboard_summary(), "3m: write report\n\n0m: \n\n120m: call");
    let one = saved(vec![entry("x", 42)], 0, None);
    assert_eq!(one.clipboard_summary(), "42m: x");
}

#[test]
fn exit_from_command_mode_writes_clipboard() {
    let mut editors = NoteEditors::new(saved(vec![entry("a", 1), entry("b", 2)], 0, None));
    let mut modes = ModeManager::new();
    let plan = expect_exit(modes.handle_keypress(ch("x"), plain(), &mut editors, 60));
    assert_eq!(plan.clipboard, Some("1m: a\n\n2m: b".to_string()));
}

#[test]
fn exit_selection_with_a_number_exits_with_clipboard() {
    let mut editors = NoteEditors::new(saved(vec![entry("a", 1)], 0, None));
    let mut modes = ModeManager::new();
    expect_noop(modes.handle_keypress(ch("s"), plain(), &mut editors, 0));
    assert_eq!(modes.active_mode(), Mode::SelectExit);
    let plan = expect_exit(modes.handle_keypress(ch("9"), plain(), &mut editors, 0));
    assert_eq!(modes.active_mode(), Mode::Exit);
    assert_eq!(plan.clipboard, Some("1m: a".to_string()));
}

#[test]
fn exit_selection_without_a_number_falls_back() {
    let mut editors = NoteEditors::new(Savefile::empty(0));
    let mut modes = ModeManager::new();
    expect_noop(modes.handle_keypress(ch("s"), plain(), &mut editors, 0));
    expect_noop(modes.handle_keypress(ch("q"), plain(), &mut editors, 0));
    assert_eq!(modes.active_mode(), Mode::Command);
}

#[test]
fn exit_mode_absorbs_every_key() {
    let mut editors = NoteEditors::new(Savefile::empty(0));
    let mut modes = ModeManager::new();
    expect_exit(modes.handle_keypress(ch("x"), plain(), &mut editors, 0));
    expect_noop(modes.handle_keypress(ch("n"), plain(), &mut editors, 0));
    expect_noop(modes.handle_keypress(ch("s"), ctrl(), &mut editors, 0));
    assert_eq!(modes.active_mode(), Mode::Exit);
    assert_eq!(editors.len(), 0);
}

#[test]
fn escape_returns_to_command_from_every_mode() {
    let mut editors = NoteEditors::new(Savefile::empty(0));
    for first in ["s", "e", "n", "x"] {
        let mut modes = ModeManager::new();
        let _ = modes.handle_keypress(ch(first), plain(), &mut editors, 0);
        expect_noop(modes.handle_keypress(Key::Named(NamedKey::Escape), plain(), &mut editors, 0));
        assert_eq!(modes.active_mode(), Mode::Command);
    }
}

#[test]
fn other_named_and_unidentified_keys_do_nothing() {
    let mut editors = NoteEditors::new(Savefile::empty(0));
    let mut modes = ModeManager::new();
    expect_noop(modes.handle_keypress(ch("e"), plain(), &mut editors, 0));
    expect_noop(modes.handle_keypress(Key::Named(NamedKey::Other), ctrl(), &mut editors, 0));
    assert_eq!(modes.active_mode(), Mode::SelectEdit);
    expect_noop(modes.handle_keypress(Key::Unidentified, plain(), &mut editors, 0));
    assert_eq!(modes.active_mode(), Mode::SelectEdit);
}

#[test]
fn unknown_command_character_stays_in_command() {
    let mut editors = NoteEditors::new(Savefile::empty(0));
    let mut modes = ModeManager::new();
    for key in ["q", "N", "ss", "1"] {
        expect_noop(modes.handle_keypress(ch(key), plain(), &mut editors, 0));
        assert_eq!(modes.active_mode(), Mode::Command);
    }
    assert_eq!(editors.len(), 0);
}

#[test]
fn edit_of_unknown_note_is_ignored() {
    let mut editors = NoteEditors::new(saved(vec![entry("keep", 0)], 0, None));
    editors.perform_editor_action(7, "lost".to_string());
    assert_eq!(editors.len(), 1);
    assert_eq!(editors.text_at(0), Some("keep".to_string()));
    assert_eq!(editors.text_at(1), None);
}

#[test]
fn edit_keeps_credited_minutes() {
    let mut editors = NoteEditors::new(saved(vec![entry("a", 9), entry("b", 4)], 0, None));
    editors.perform_editor_action(1, "b2".to_string());
    let plan = editors.save_and_exit(false, 0);
    assert_eq!(plan.savefile.log_entries[1].notes, "b2");
    assert_eq!(plan.savefile.log_entries[1].minutes_spent, 4);
    assert_eq!(plan.savefile.log_entries[0].notes, "a");
}

#[test]
fn index_text_is_read_like_unsigned_parsing() {
    assert_eq!(parse_index("0"), Some(0));
    assert_eq!(parse_index("7"), Some(7));
    assert_eq!(parse_index("42"), Some(42));
    assert_eq!(parse_index("+3"), Some(3));
    assert_eq!(parse_index("007"), Some(7));
    assert_eq!(parse_index(""), None);
    assert_eq!(parse_index("+"), None);
    assert_eq!(parse_index("-1"), None);
    assert_eq!(parse_index("x"), None);
    assert_eq!(parse_index("1 "), None);
    assert_eq!(parse_index("18446744073709551615"), Some(usize::MAX));
    assert_eq!(parse_index("18446744073709551616"), None);
    assert_eq!(parse_index("99999999999999999999x"), None);
}

#[test]
fn decimal_text_of_counts() {
    assert_eq!(decimal_string(0), "0");
    assert_eq!(decimal_string(9), "9");
    assert_eq!(decimal_string(10), "10");
    assert_eq!(decimal_string(1234), "1234");
    assert_eq!(decimal_string(u64::MAX), "18446744073709551615");
}

#[test]
fn savefile_validity_checks_the_focused_index() {
    assert!(saved(vec![entry("a", 0)], 0, Some(0)).is_valid());
    assert!(!saved(vec![entry("a", 0)], 0, Some(1)).is_valid());
    assert!(saved(vec![], 0, None).is_valid());
    let empty = Savefile::empty(77);
    assert_eq!(empty.unix_time_last_exit, 77);
    assert!(empty.log_entries.is_empty());
}

#[test]
fn loaded_notes_keep_text_minutes_and_focus() {
    let editors = NoteEditors::new(saved(vec![entry("a", 1), entry("b", 2)], 50, Some(1)));
    assert_eq!(editors.text_at(0), Some("a".to_string()));
    assert_eq!(editors.text_at(1), Some("b".to_string()));
    assert_eq!(editors.last_focused_id(), Some(1));
    let plan = editors.save_and_exit(true, 50);
    assert_eq!(plan.savefile.log_entries[1].minutes_spent, 2);
    assert_eq!(plan.clipboard, Some("1m: a\n\n2m: b".to_string()));
}
