use editor_core::editor::{Document, Selection};

#[test]
fn set_cursor_on_greeting() {
    let mut doc = Document::new("Hello from Rust core".chars().collect());
    let snap = doc.set_cursor(5);
    let expected: Vec<char> = "Hello from Rust core".chars().collect();
    assert_eq!(snap.text, expected);
    assert_eq!(snap.cursor, 5);
    assert_eq!(snap.selection, None);
}

#[test]
fn insert_comma_after_hello() {
    let mut doc = Document::new("Hello from Rust core".chars().collect());
    doc.set_cursor(5);
    let snap = doc.insert_text(",");
    let expected: Vec<char> = "Hello, from Rust core".chars().collect();
    assert_eq!(snap.text, expected);
    assert_eq!(snap.cursor, 6);
    assert_eq!(snap.selection, None);
}

#[test]
fn delete_selected_prefix() {
    let mut doc = Document::new("Hello, from Rust core".chars().collect());
    let snap = doc.set_selection(0, 5);
    assert_eq!(snap.cursor, 5);
    assert_eq!(snap.selection, Some(Selection { start: 0, end: 5 }));
    let snap = doc.delete_at_cursor();
    let expected: Vec<char> = ", from Rust core".chars().collect();
    assert_eq!(snap.text, expected);
    assert_eq!(snap.cursor, 0);
    assert_eq!(snap.selection, None);
}

#[test]
fn delete_on_empty_buffer_is_noop() {
    let mut doc = Document::new(Vec::new());
    let before = doc.get_state();
    let after = doc.delete_at_cursor();
    assert_eq!(before, after);
    assert_eq!(after.cursor, 0);
    assert_eq!(after.text, Vec::<char>::new());
    assert_eq!(after.selection, None);
}

#[test]
fn out_of_range_selection_collapses() {
    let mut doc = Document::new("abcde".chars().collect());
    let snap = doc.set_selection(100, 200);
    assert_eq!(snap.selection, None);
    assert_eq!(snap.cursor, 5);
    let expected: Vec<char> = "abcde".chars().collect();
    assert_eq!(snap.text, expected);
}

#[test]
fn set_cursor_clamps_past_end() {
    let mut doc = Document::new("abc".chars().collect());
    doc.set_selection(0, 2);
    let snap = doc.set_cursor(100);
    assert_eq!(snap.cursor, 3);
    assert_eq!(snap.selection, None);
    let expected: Vec<char> = "abc".chars().collect();
    assert_eq!(snap.text, expected);
}

#[test]
fn get_state_twice_is_identical() {
    let mut doc = Document::new("stable".chars().collect());
    doc.set_selection(1, 4);
    let first = doc.get_state();
    let second = doc.get_state();
    assert_eq!(first, second);
}

#[test]
fn plain_insert_twice_matches_combined_insert() {
    let mut twice = Document::new("abc".chars().collect());
    twice.set_cursor(1);
    twice.insert_text("xy");
    let snap_twice = twice.insert_text("xy");

    let mut once = Document::new("abc".chars().collect());
    once.set_cursor(1);
    let snap_once = once.insert_text("xyxy");

    assert_eq!(snap_twice, snap_once);
    assert_eq!(snap_twice.cursor, 5);
}

#[test]
fn selected_insert_twice_also_matches_combined_insert() {
    // The replace consumes the selection on the first insert, so even with a
    // selection active beforehand, both routes land the cursor at the same
    // offset: no stronger separation between them holds.
    let mut twice = Document::new("abcdef".chars().collect());
    twice.set_selection(1, 4);
    twice.insert_text("xy");
    let snap_twice = twice.insert_text("xy");

    let mut once = Document::new("abcdef".chars().collect());
    once.set_selection(1, 4);
    let snap_once = once.insert_text("xyxy");

    assert_eq!(snap_twice.cursor, snap_once.cursor);
    assert_eq!(snap_twice, snap_once);
}

#[test]
fn backspace_undoes_plain_insert() {
    let mut doc = Document::new("hello world".chars().collect());
    doc.set_cursor(5);
    let inserted = doc.insert_text("xyz");
    assert_eq!(inserted.cursor, 8);
    doc.delete_at_cursor();
    doc.delete_at_cursor();
    let snap = doc.delete_at_cursor();
    let expected: Vec<char> = "hello world".chars().collect();
    assert_eq!(snap.text, expected);
    assert_eq!(snap.cursor, 5);
    assert_eq!(snap.selection, None);
}

#[test]
fn inverted_selection_collapses_to_start() {
    let mut doc = Document::new("hello".chars().collect());
    let snap = doc.set_selection(3, 1);
    assert_eq!(snap.selection, None);
    assert_eq!(snap.cursor, 3);
}

#[test]
fn empty_selection_collapses() {
    let mut doc = Document::new("hello".chars().collect());
    let snap = doc.set_selection(2, 2);
    assert_eq!(snap.selection, None);
    assert_eq!(snap.cursor, 2);
}

#[test]
fn empty_insert_is_legal_noop() {
    let mut doc = Document::new("abc".chars().collect());
    doc.set_cursor(2);
    let snap = doc.insert_text("");
    let expected: Vec<char> = "abc".chars().collect();
    assert_eq!(snap.text, expected);
    assert_eq!(snap.cursor, 2);
    assert_eq!(snap.selection, None);
}

#[test]
fn insert_replaces_selection() {
    let mut doc = Document::new("Hello world".chars().collect());
    doc.set_selection(0, 5);
    let snap = doc.insert_text("Goodbye");
    let expected: Vec<char> = "Goodbye world".chars().collect();
    assert_eq!(snap.text, expected);
    assert_eq!(snap.cursor, 7);
    assert_eq!(snap.selection, None);
}

#[test]
fn cursor_counts_scalar_values_not_bytes() {
    let mut doc = Document::new(Vec::new());
    let snap = doc.insert_text("日本語");
    assert_eq!(snap.cursor, 3);
    assert_eq!(snap.text, vec!['日', '本', '語']);
    let snap = doc.delete_at_cursor();
    assert_eq!(snap.text, vec!['日', '本']);
    assert_eq!(snap.cursor, 2);
}

#[test]
fn snapshot_text_string_round_trips() {
    let mut doc = Document::new("héllo".chars().collect());
    doc.set_cursor(1);
    let snap = doc.insert_text("ü");
    assert_eq!(snap.text_string(), "hüéllo".to_string());
}

#[test]
fn insert_with_stale_free_cursor_appends() {
    let mut doc = Document::new("ab".chars().collect());
    doc.set_cursor(2);
    let snap = doc.insert_text("c");
    let expected: Vec<char> = "abc".chars().collect();
    assert_eq!(snap.text, expected);
    assert_eq!(snap.cursor, 3);
}

#[test]
fn backspace_at_start_is_noop() {
    let mut doc = Document::new("abc".chars().collect());
    doc.set_cursor(0);
    let before = doc.get_state();
    let after = doc.delete_at_cursor();
    assert_eq!(before, after);
    assert_eq!(after.cursor, 0);
}

#[test]
fn selection_delete_lands_cursor_at_start() {
    let mut doc = Document::new("abcdef".chars().collect());
    doc.set_selection(2, 5);
    let snap = doc.delete_at_cursor();
    let expected: Vec<char> = "abf".chars().collect();
    assert_eq!(snap.text, expected);
    assert_eq!(snap.cursor, 2);
    assert_eq!(snap.selection, None);
}
