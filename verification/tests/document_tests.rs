use editor_core::Document;
use editor_core::DocumentAction;
use editor_core::DocumentName;
use editor_core::SingleLineDocumentAction;

fn doc(strs: &[&str]) -> Document {
    Document::from_lines(
        DocumentName::Path("buffer.txt".to_string()),
        strs.iter().map(|s| s.to_string()).collect(),
    )
}

fn contents(d: &Document) -> Vec<String> {
    d.lines().clone()
}

#[test]
fn scenario_split_and_merge_at_end_of_hello() {
    // lines ["hello", "world"], cursor at true (5,0): a split yields
    // ["hello", "", "world"] with the selection at (0,1); deleting from
    // there restores the lines and puts the selection back at (5,0).
    let mut d = doc(&["hello", "world"]);
    d.selection.start = (5, 0);
    d.selection.end = (5, 0);
    d.insert_line_before_cursor();
    assert_eq!(contents(&d), vec!["hello".to_string(), "".to_string(), "world".to_string()]);
    assert_eq!(d.selection().start(), (0, 1));
    assert_eq!(d.selection().end(), (0, 1));
    assert!(d.dirty());
    d.delete_before();
    assert_eq!(contents(&d), vec!["hello".to_string(), "world".to_string()]);
    assert_eq!(d.selection().start(), (5, 0));
    assert_eq!(d.selection().end(), (5, 0));
}

#[test]
fn scenario_missing_file_like_empty_buffer_never_writes() {
    // An unreadable path yields an empty buffer and a clean document;
    // a write is a no-op while nothing changed.
    let d = Document::from_lines(DocumentName::Path("no/such/file".to_string()), Vec::new());
    assert!(d.lines().is_empty());
    assert!(!d.dirty());
    assert!(d.write_request().is_none());
}

#[test]
fn scenario_delete_at_origin_is_noop() {
    // delete_before() at true (0,0) of an empty or non-empty buffer: no
    // mutation, dirty unchanged.
    let mut e = doc(&[]);
    e.delete_before();
    assert!(e.lines().is_empty());
    assert!(!e.dirty());
    assert_eq!(e.selection().end(), (0, 0));

    let mut d = doc(&["hello"]);
    d.delete_before();
    assert_eq!(contents(&d), vec!["hello".to_string()]);
    assert!(!d.dirty());
    assert_eq!(d.selection().end(), (0, 0));
}

#[test]
fn scenario_insert_at_end_of_line() {
    // lines ["ab"], true cursor (2,0); insert('c') gives ["abc"], cursor
    // (3,0), dirty.
    let mut d = doc(&["ab"]);
    d.selection.start = (2, 0);
    d.selection.end = (2, 0);
    d.insert('c');
    assert_eq!(contents(&d), vec!["abc".to_string()]);
    assert_eq!(d.selection().start(), (3, 0));
    assert_eq!(d.selection().end(), (3, 0));
    assert!(d.dirty());
}

#[test]
fn insert_then_delete_restores_buffer_and_cursor() {
    // P4 on concrete values, away from any line-merge boundary.
    let mut d = doc(&["hello", "world"]);
    d.selection.start = (2, 1);
    d.selection.end = (2, 1);
    d.insert('x');
    assert_eq!(contents(&d), vec!["hello".to_string(), "woxrld".to_string()]);
    assert_eq!(d.selection().end(), (3, 1));
    d.delete_before();
    assert_eq!(contents(&d), vec!["hello".to_string(), "world".to_string()]);
    assert_eq!(d.selection().start(), (2, 1));
    assert_eq!(d.selection().end(), (2, 1));
}

#[test]
fn insert_multibyte_character_counts_scalars() {
    let mut d = doc(&["h\u{e9}llo"]);
    d.selection.start = (2, 0);
    d.selection.end = (2, 0);
    d.insert('x');
    assert_eq!(contents(&d), vec!["h\u{e9}xllo".to_string()]);
    assert_eq!(d.selection().end(), (3, 0));
    d.delete_before();
    assert_eq!(contents(&d), vec!["h\u{e9}llo".to_string()]);
    assert_eq!(d.selection().end(), (2, 0));
}

#[test]
fn insert_on_empty_buffer_creates_line() {
    let mut d = doc(&[]);
    d.insert('a');
    assert_eq!(contents(&d), vec!["a".to_string()]);
    assert_eq!(d.selection().end(), (1, 0));
    assert!(d.dirty());
}

#[test]
fn insert_with_multiline_selection_grows_start_only() {
    // Over a multi-line range the start endpoint steps right and the end
    // endpoint is kept — the observed asymmetry, pinned on purpose.
    let mut d = doc(&["hello", "world"]);
    d.selection.start = (1, 0);
    d.selection.end = (2, 1);
    d.insert('x');
    assert_eq!(contents(&d), vec!["hxello".to_string(), "world".to_string()]);
    assert_eq!(d.selection().start(), (2, 0));
    assert_eq!(d.selection().end(), (2, 1));
}

#[test]
fn delete_merges_lines_at_line_start() {
    let mut d = doc(&["hello", "world"]);
    d.selection.start = (0, 1);
    d.selection.end = (0, 1);
    d.delete_before();
    assert_eq!(contents(&d), vec!["helloworld".to_string()]);
    // The anchor lands at the merge point; the end endpoint's line index
    // is shifted back one to track the merge (it is not collapsed).
    assert_eq!(d.selection().start(), (5, 0));
    assert_eq!(d.selection().end(), (0, 0));
    assert!(d.dirty());
}

#[test]
fn delete_at_origin_merges_when_first_line_empty() {
    // At (0,0) with an empty first line there is something to merge: the
    // empty line is consumed.
    let mut d = doc(&["", "world"]);
    d.delete_before();
    assert_eq!(contents(&d), vec!["world".to_string()]);
    assert!(d.dirty());
}

#[test]
fn delete_at_end_of_last_line_moves_cursor_only() {
    let mut d = doc(&["ab"]);
    d.selection.start = (0, 1);
    d.selection.end = (0, 1);
    d.delete_before();
    assert_eq!(contents(&d), vec!["ab".to_string()]);
    assert!(!d.dirty());
    // Only the anchor stepped left; there was nothing to merge.
    assert_eq!(d.selection().start(), (2, 0));
    assert_eq!(d.selection().end(), (0, 1));
}

#[test]
fn delete_removes_single_character() {
    let mut d = doc(&["hello"]);
    d.selection.start = (3, 0);
    d.selection.end = (3, 0);
    d.delete_before();
    assert_eq!(contents(&d), vec!["helo".to_string()]);
    assert_eq!(d.selection().end(), (2, 0));
}

#[test]
fn split_on_empty_buffer() {
    let mut d = doc(&[]);
    d.insert_line_before_cursor();
    assert_eq!(contents(&d), vec!["".to_string(), "".to_string()]);
    assert_eq!(d.selection().end(), (0, 1));
    assert!(d.dirty());
}

#[test]
fn split_mid_line() {
    let mut d = doc(&["hello"]);
    d.selection.start = (2, 0);
    d.selection.end = (2, 0);
    d.insert_line_before_cursor();
    assert_eq!(contents(&d), vec!["he".to_string(), "llo".to_string()]);
    // The anchor wraps to the start of the new line; the end endpoint
    // steps down keeping its raw column.
    assert_eq!(d.selection().start(), (0, 1));
    assert_eq!(d.selection().end(), (2, 1));
}

#[test]
fn write_request_serializes_lines_joined_by_newline() {
    let mut d = doc(&["hello", "", "world"]);
    d.insert('x');
    let req = d.write_request().expect("dirty document with a path must produce a write");
    assert_eq!(req.path, "buffer.txt");
    assert_eq!(req.content, "xhello\n\nworld");
    d.write_finished(true);
    assert!(!d.dirty());
    assert!(d.write_request().is_none());
}

#[test]
fn write_failure_keeps_document_dirty() {
    let mut d = doc(&["a"]);
    d.insert('b');
    assert!(d.dirty());
    d.write_finished(false);
    assert!(d.dirty());
    assert!(d.write_request().is_some()); // a later write retries
}

#[test]
fn scratch_document_never_writes() {
    let mut d = Document::new_scratch();
    assert!(d.lines().is_empty());
    d.insert('a');
    assert!(d.dirty());
    assert!(d.write_request().is_none());
    assert_eq!(d.display_name(), "[scratch]");
}

#[test]
fn display_name_shows_path() {
    let d = doc(&[]);
    assert_eq!(d.display_name(), "buffer.txt");
}

#[test]
fn get_line_in_and_out_of_range() {
    let d = doc(&["hello", "world"]);
    assert_eq!(d.get_line(0), Some("hello"));
    assert_eq!(d.get_line(1), Some("world"));
    assert_eq!(d.get_line(2), None);
}

#[test]
fn handle_action_dispatches_movement_and_editing() {
    let mut d = doc(&["hi"]);
    assert!(d.handle_action(DocumentAction::SingleLine(SingleLineDocumentAction::MoveRight)).is_none());
    assert_eq!(d.selection().end(), (1, 0));
    assert!(d.handle_action(DocumentAction::SingleLine(SingleLineDocumentAction::Insert { ch: 'x' })).is_none());
    assert_eq!(contents(&d), vec!["hxi".to_string()]);
    assert!(d.handle_action(DocumentAction::SingleLine(SingleLineDocumentAction::DeleteBefore)).is_none());
    assert_eq!(contents(&d), vec!["hi".to_string()]);
    assert!(d.handle_action(DocumentAction::MoveDown).is_none());
    assert_eq!(d.selection().end(), (0, 1));
    assert!(d.handle_action(DocumentAction::MoveUp).is_none());
    assert_eq!(d.selection().end(), (1, 0));
}

#[test]
fn handle_action_extend_start_directions_are_symmetric() {
    let mut d = doc(&["hello", "world"]);
    d.selection.start = (2, 0);
    d.selection.end = (2, 0);
    assert!(d.handle_action(DocumentAction::ExtendStartRight).is_none());
    assert_eq!(d.selection().start(), (3, 0));
    assert_eq!(d.selection().end(), (2, 0));
    assert!(d.handle_action(DocumentAction::ExtendStartDown).is_none());
    assert_eq!(d.selection().start(), (3, 1));
    assert!(d.handle_action(DocumentAction::ExtendStartUp).is_none());
    assert_eq!(d.selection().start(), (3, 0));
    assert!(d.handle_action(DocumentAction::ExtendStartLeft).is_none());
    assert_eq!(d.selection().start(), (2, 0));
}

#[test]
fn handle_action_write_returns_pending_write() {
    let mut d = doc(&["a"]);
    assert!(d.handle_action(DocumentAction::Write).is_none()); // clean: no-op
    d.insert('b');
    let req = d.handle_action(DocumentAction::Write).expect("dirty: a write is due");
    assert_eq!(req.content, "ba");
    assert!(d.dirty()); // untouched until the outcome is reported
    d.write_finished(true);
    assert!(!d.dirty());
}
