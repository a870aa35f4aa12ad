use editor_core::Mode;
use editor_core::SingleLineDocument;
use editor_core::SingleLineDocumentAction;

#[test]
fn single_line_starts_empty() {
    let d = SingleLineDocument::new();
    assert_eq!(d.line(), "");
    assert_eq!(d.cursor(), 0);
}

#[test]
fn single_line_insert_advances_cursor() {
    let mut d = SingleLineDocument::new();
    d.insert('h');
    d.insert('i');
    assert_eq!(d.line(), "hi");
    assert_eq!(d.cursor(), 2);
    d.move_left();
    d.insert('e');
    assert_eq!(d.line(), "hei");
    assert_eq!(d.cursor(), 2);
}

#[test]
fn single_line_delete_before_removes_one_character() {
    let mut d = SingleLineDocument::new();
    d.insert('a');
    d.insert('b');
    d.insert('c');
    d.move_left();
    d.delete_before();
    assert_eq!(d.line(), "ac");
    assert_eq!(d.cursor(), 1);
}

#[test]
fn single_line_delete_at_column_zero_is_noop() {
    let mut d = SingleLineDocument::new();
    d.insert('a');
    d.move_left();
    assert_eq!(d.cursor(), 0);
    d.delete_before();
    assert_eq!(d.line(), "a");
    assert_eq!(d.cursor(), 0);
}

#[test]
fn single_line_cursor_saturates() {
    let mut d = SingleLineDocument::new();
    d.move_left();
    assert_eq!(d.cursor(), 0);
    d.insert('x');
    d.move_right();
    assert_eq!(d.cursor(), 1); // saturates at the character count
}

#[test]
fn single_line_counts_characters_not_bytes() {
    let mut d = SingleLineDocument::new();
    d.insert('\u{e9}');
    d.insert('x');
    assert_eq!(d.line(), "\u{e9}x");
    assert_eq!(d.cursor(), 2);
    d.delete_before();
    assert_eq!(d.line(), "\u{e9}");
    assert_eq!(d.cursor(), 1);
}

#[test]
fn single_line_multiline_operations_are_noops() {
    let mut d = SingleLineDocument::new();
    d.insert('a');
    d.move_up();
    d.move_down();
    d.insert_line_before_cursor();
    assert_eq!(d.line(), "a");
    assert_eq!(d.cursor(), 1);
}

#[test]
fn single_line_clear_resets() {
    let mut d = SingleLineDocument::new();
    d.insert('a');
    d.clear();
    assert_eq!(d.line(), "");
    assert_eq!(d.cursor(), 0);
}

#[test]
fn single_line_handle_action_matches_methods() {
    let mut d = SingleLineDocument::new();
    d.handle_action(SingleLineDocumentAction::Insert { ch: 'a' });
    d.handle_action(SingleLineDocumentAction::Insert { ch: 'b' });
    d.handle_action(SingleLineDocumentAction::MoveLeft);
    d.handle_action(SingleLineDocumentAction::DeleteBefore);
    assert_eq!(d.line(), "b");
    assert_eq!(d.cursor(), 0);
    d.handle_action(SingleLineDocumentAction::MoveRight);
    assert_eq!(d.cursor(), 1);
}

#[test]
fn mode_abreviations() {
    assert_eq!(Mode::Normal.abreviation(), "NOR");
    assert_eq!(Mode::Insert.abreviation(), "INS");
    assert_eq!(Mode::Selection.abreviation(), "SEL");
}
