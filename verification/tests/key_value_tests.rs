use reqtui::key_value::KeyValueEntries;
use reqtui::key_value::KeyValueField;
use reqtui::key_value::KeyValueWidget;

#[test]
fn new_table_is_empty_with_cursor_on_virtual_slot() {
    let t = KeyValueEntries::new();
    assert_eq!(t.entries.len(), 0);
    assert_eq!(t.focused_index, 0);
    assert_eq!(t.focused_field, KeyValueField::Key);
}

#[test]
fn add_entry_appends_enabled_row() {
    let mut t = KeyValueEntries::new();
    t.add_entry("Accept".to_string(), "text/plain".to_string());
    assert_eq!(t.entries.len(), 1);
    assert_eq!(t.entries[0].key, "Accept");
    assert_eq!(t.entries[0].value, "text/plain");
    assert!(t.entries[0].enabled);
}

#[test]
fn remove_entry_out_of_range_is_noop() {
    let mut t = KeyValueEntries::new();
    t.add_entry("a".to_string(), "1".to_string());
    t.remove_entry(5);
    assert_eq!(t.entries.len(), 1);
    t.remove_entry(0);
    assert_eq!(t.entries.len(), 0);
}

#[test]
fn get_selected_mut_edits_in_place() {
    let mut t = KeyValueEntries::new();
    t.add_entry("a".to_string(), "1".to_string());
    assert!(t.get_selected_mut(1).is_none());
    if let Some(e) = t.get_selected_mut(0) {
        e.value.push('2');
    }
    assert_eq!(t.entries[0].value, "12");
}

#[test]
fn toggle_enabled_flips_only_real_rows() {
    let mut t = KeyValueEntries::new();
    t.add_entry("a".to_string(), "1".to_string());
    t.toggle_enabled(0);
    assert!(!t.entries[0].enabled);
    t.toggle_enabled(0);
    assert!(t.entries[0].enabled);
    t.toggle_enabled(3);
    assert!(t.entries[0].enabled);
}

#[test]
fn to_pairs_keeps_enabled_rows_in_order() {
    let mut t = KeyValueEntries::new();
    t.add_entry("a".to_string(), "1".to_string());
    t.add_entry("b".to_string(), "2".to_string());
    t.add_entry("c".to_string(), "3".to_string());
    t.toggle_enabled(1);
    let pairs = t.to_pairs();
    assert_eq!(
        pairs,
        vec![("a".to_string(), "1".to_string()), ("c".to_string(), "3".to_string())]
    );
}

#[test]
fn to_header_map_skips_rows_that_are_not_legal_headers() {
    let mut t = KeyValueEntries::new();
    t.add_entry("X-Ok".to_string(), "yes".to_string());
    t.add_entry("Bad Key".to_string(), "v".to_string());
    t.add_entry("X-Bad-Value".to_string(), "a\nb".to_string());
    t.add_entry("X-Off".to_string(), "v".to_string());
    t.toggle_enabled(3);
    let headers = t.to_header_map();
    assert_eq!(headers, vec![("X-Ok".to_string(), "yes".to_string())]);
}

#[test]
fn typing_on_virtual_slot_materializes_a_row() {
    let mut t = KeyValueEntries::new();
    t.type_char('H');
    assert_eq!(t.entries.len(), 1);
    assert_eq!(t.entries[0].key, "H");
    assert_eq!(t.entries[0].value, "");
    t.switch_field();
    t.type_char('v');
    assert_eq!(t.entries[0].value, "v");
}

#[test]
fn navigation_alone_never_creates_a_row() {
    let mut t = KeyValueEntries::new();
    t.move_cursor_down();
    t.move_cursor_down();
    t.move_cursor_up();
    t.move_cursor_up();
    t.move_cursor_up();
    assert_eq!(t.entries.len(), 0);
    assert_eq!(t.focused_index, 0);
}

#[test]
fn cursor_stays_within_bounds_after_mixed_operations() {
    let mut t = KeyValueEntries::new();
    t.type_char('a');
    t.commit_row_and_advance();
    t.type_char('b');
    t.commit_row_and_advance();
    t.move_cursor_down();
    t.move_cursor_down();
    t.move_cursor_down();
    assert!(t.focused_index <= t.entries.len());
    t.delete_row();
    assert!(t.focused_index <= t.entries.len());
    t.move_cursor_up();
    t.backspace();
    t.backspace();
    assert!(t.focused_index <= t.entries.len());
}

#[test]
fn commit_row_advances_and_resets_field() {
    let mut t = KeyValueEntries::new();
    t.switch_field();
    t.commit_row_and_advance();
    assert_eq!(t.entries.len(), 1);
    assert_eq!(t.entries[0].key, "");
    assert_eq!(t.entries[0].value, "");
    assert_eq!(t.focused_index, 1);
    assert_eq!(t.focused_field, KeyValueField::Key);
}

#[test]
fn backspace_trims_focused_field_but_keeps_row() {
    let mut t = KeyValueEntries::new();
    t.type_char('a');
    t.type_char('b');
    t.backspace();
    t.backspace();
    t.backspace();
    assert_eq!(t.entries.len(), 1);
    assert_eq!(t.entries[0].key, "");
}

#[test]
fn delete_row_moves_focus_back_from_the_end() {
    let mut t = KeyValueEntries::new();
    t.add_entry("a".to_string(), "1".to_string());
    t.add_entry("b".to_string(), "2".to_string());
    t.move_cursor_down();
    assert_eq!(t.focused_index, 1);
    t.delete_row();
    assert_eq!(t.entries.len(), 1);
    assert_eq!(t.focused_index, 0);
    assert_eq!(t.entries[0].key, "a");
    t.delete_row();
    assert_eq!(t.entries.len(), 0);
    assert_eq!(t.focused_index, 0);
    t.delete_row();
    assert_eq!(t.entries.len(), 0);
}

#[test]
fn widget_builder_sets_flags() {
    let t = KeyValueEntries::new();
    let w = KeyValueWidget::new(&t).focused(true).editing(true);
    assert!(w.is_focused);
    assert!(w.is_editing);
    let w2 = KeyValueWidget::new(&t);
    assert!(!w2.is_focused);
    assert!(!w2.is_editing);
}
