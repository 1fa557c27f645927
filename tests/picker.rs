use made::search::{Action, Key, Tui};

fn strings(v: &[&str]) -> Vec<String> {
    v.iter().map(|s| s.to_string()).collect()
}

fn typed(items: &[&str], query: &str) -> Tui {
    let mut t = Tui::new(strings(items));
    for c in query.chars() {
        t.enter_char(c);
    }
    t
}

#[test]
fn phonetic_query_filters_entries() {
    let t = typed(&["北京", "上海"], "bj");
    assert_eq!(t.filtered_indices, vec![0]);
    assert_eq!(t.selected, Some(0));
}

#[test]
fn latin_entries_match_literally_only() {
    let t = typed(&["Beijing", "Shanghai"], "jing");
    assert_eq!(t.filtered_indices, vec![0]);
    let t = typed(&["Beijing", "Shanghai"], "bj");
    assert!(t.filtered_indices.is_empty());
    assert_eq!(t.selected, None);
}

#[test]
fn empty_query_shows_nothing() {
    let t = Tui::new(strings(&["a", "b"]));
    assert!(t.filtered_indices.is_empty());
    assert_eq!(t.selected, None);
    let t = typed(&["a", " b"], "  ");
    assert!(t.filtered_indices.is_empty());
    assert_eq!(t.selected, None);
    assert!(t.query_is_blank());
}

#[test]
fn filter_keeps_store_order() {
    let t = typed(&["ab", "xx", "cab", "abc"], "ab");
    assert_eq!(t.filtered_indices, vec![0, 2, 3]);
}

#[test]
fn select_next_wraps_to_first() {
    let mut t = typed(&["ab", "cab", "abc"], "ab");
    assert_eq!(t.filtered_indices.len(), 3);
    t.select_next();
    t.select_next();
    assert_eq!(t.selected, Some(2));
    t.select_next();
    assert_eq!(t.selected, Some(0));
}

#[test]
fn select_previous_wraps_to_last() {
    let mut t = typed(&["ab", "cab", "abc"], "ab");
    t.select_previous();
    assert_eq!(t.selected, Some(2));
    t.select_previous();
    assert_eq!(t.selected, Some(1));
}

#[test]
fn select_on_empty_list_does_nothing() {
    let mut t = Tui::new(strings(&["a"]));
    t.select_next();
    t.select_previous();
    t.select_first();
    t.select_last();
    assert_eq!(t.selected, None);
}

#[test]
fn select_first_and_last_jump_to_bounds() {
    let mut t = typed(&["ab", "cab", "abc"], "ab");
    t.select_last();
    assert_eq!(t.selected, Some(2));
    t.select_first();
    assert_eq!(t.selected, Some(0));
}

#[test]
fn edit_resets_selection_to_first() {
    let mut t = typed(&["ab", "cab", "abc"], "a");
    t.select_last();
    assert_eq!(t.selected, Some(2));
    t.enter_char('b');
    assert_eq!(t.filtered_indices, vec![0, 1, 2]);
    assert_eq!(t.selected, Some(0));
}

#[test]
fn new_history_is_filtered_on_update() {
    let mut t = typed(&["ab", "xy"], "ab");
    assert_eq!(t.filtered_indices, vec![0]);
    t.update_text_list(strings(&["ab", "xy", "abab"]));
    assert_eq!(t.filtered_indices, vec![0, 2]);
    assert_eq!(t.selected, Some(0));
    assert_eq!(t.query(), "ab");
}

#[test]
fn cursor_stays_within_query() {
    let mut t = typed(&[], "ab");
    assert_eq!(t.character_index, 2);
    t.move_cursor_right();
    assert_eq!(t.character_index, 2);
    t.move_cursor_left();
    t.move_cursor_left();
    t.move_cursor_left();
    assert_eq!(t.character_index, 0);
    assert_eq!(t.clamp_cursor(9), 2);
    assert_eq!(t.clamp_cursor(1), 1);
}

#[test]
fn insert_at_cursor_counts_characters_not_bytes() {
    let mut t = typed(&[], "北京");
    t.move_cursor_left();
    t.enter_char('x');
    assert_eq!(t.query(), "北x京");
    assert_eq!(t.character_index, 2);
    t.move_cursor_left();
    t.move_cursor_left();
    t.enter_char('y');
    assert_eq!(t.query(), "y北x京");
}

#[test]
fn delete_removes_character_before_cursor() {
    let mut t = typed(&[], "北京x");
    t.move_cursor_left();
    t.delete_char();
    assert_eq!(t.query(), "北x");
    assert_eq!(t.character_index, 1);
    t.move_cursor_left();
    t.delete_char();
    assert_eq!(t.query(), "北x");
    assert_eq!(t.character_index, 0);
}

#[test]
fn esc_clears_query_then_exits() {
    let mut t = typed(&["ab"], "ab");
    assert!(matches!(t.handle_key(Key::Esc), Action::Nothing));
    assert_eq!(t.query(), "");
    assert_eq!(t.character_index, 0);
    assert!(t.filtered_indices.is_empty());
    assert_eq!(t.selected, None);
    assert!(!t.exit);
    assert!(matches!(t.handle_key(Key::Esc), Action::Exit));
    assert!(t.exit);
}

#[test]
fn enter_copies_selected_entry() {
    let mut t = Tui::new(strings(&["ab", "xy", "xyz"]));
    for c in "xy".chars() {
        t.handle_key(Key::Char(c));
    }
    t.handle_key(Key::Down);
    match t.handle_key(Key::Enter) {
        Action::Copy(s) => assert_eq!(s, "xyz"),
        _ => panic!("expected a copy"),
    }
}

#[test]
fn enter_without_selection_does_nothing() {
    let mut t = Tui::new(strings(&["ab"]));
    assert!(matches!(t.handle_key(Key::Enter), Action::Nothing));
    assert_eq!(t.selected_text(), None);
}

#[test]
fn keys_edit_and_move() {
    let mut t = Tui::new(strings(&["ab", "b"]));
    t.handle_key(Key::Char('b'));
    assert_eq!(t.filtered_indices, vec![0, 1]);
    t.handle_key(Key::End);
    assert_eq!(t.selected, Some(1));
    t.handle_key(Key::Up);
    assert_eq!(t.selected, Some(0));
    t.handle_key(Key::Home);
    assert_eq!(t.selected, Some(0));
    t.handle_key(Key::Left);
    t.handle_key(Key::Char('a'));
    assert_eq!(t.query(), "ab");
    assert_eq!(t.filtered_indices, vec![0]);
    t.handle_key(Key::Right);
    t.handle_key(Key::Backspace);
    assert_eq!(t.query(), "a");
    t.handle_key(Key::Other);
    assert_eq!(t.query(), "a");
}
