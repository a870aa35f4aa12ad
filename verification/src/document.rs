//! The document: a line store, a selection over it, a dirty flag and an
//! identity (a file path, or scratch).
//!
//! Every operation mutates the line store and/or the selection into a new
//! consistent state; rendering reads `selection()`, `lines()`, `dirty()`
//! and `display_name()` afterwards. Every index used for mutation is
//! derived through the clamp, so stale raw positions can never address
//! outside the buffer.
//!
//! Persistence is split from the engine: `write_request` yields the path
//! and the serialized content when a write is due, the caller performs the
//! file output, and `write_finished` records whether it succeeded (the
//! dirty flag is kept on failure, so a later write retries).

use vstd::prelude::*;

use crate::action::DocumentAction;
use crate::action::SingleLineDocumentAction;
use crate::pos::buf_of;
use crate::pos::char_len;
use crate::pos::is_true;
use crate::pos::pos_view;
use crate::pos::row_len;
use crate::pos::step_down;
use crate::pos::step_left;
use crate::pos::step_right;
use crate::pos::step_up;
use crate::pos::true_pos;
use crate::pos::true_row;
use crate::pos::Buf;
use crate::selection::InternalSelection;
use crate::selection::Selection;
use crate::text::join_lines;
use crate::text::join_with_newlines;
use crate::text::line_concat;
use crate::text::line_insert;
use crate::text::line_remove;
use crate::text::line_split;

verus! {

/// The identity of a document: a file path it is persisted to, or an
/// unnamed scratch buffer that is never persisted.
#[derive(Debug)]
pub enum DocumentName {
    Scratch,
    Path(String),
}

/// The whole observable state of a document engine, as mathematics: the
/// buffer contents, the two raw selection endpoints and the dirty flag.
#[verifier::ext_equal]
pub struct DocState {
    pub buf: Buf,
    pub start: (int, int),
    pub end: (int, int),
    pub dirty: bool,
}

/// The buffer after `insert(ch)`: `ch` inserted at the true start's column
/// within its line (after extending the store by one empty line when the
/// true start sits on the virtual line). If the true start's line and the
/// end endpoint's clamped line agree, the whole selection steps right —
/// a cursor ends up just past the inserted character; over a multi-line
/// range only the start endpoint steps right, the end endpoint is kept.
pub open spec fn spec_insert(m: DocState, ch: char) -> DocState {
    let ts = true_pos(m.start, m.buf);
    let buf1 = if ts.1 == m.buf.len() {
        m.buf.push(Seq::empty())
    } else {
        m.buf
    };
    let buf2 = buf1.update(ts.1, buf1[ts.1].insert(ts.0, ch));
    if ts.1 == true_row(m.end.1, buf2) {
        DocState {
            buf: buf2,
            start: step_right(m.start, buf2),
            end: step_right(m.end, buf2),
            dirty: true,
        }
    } else {
        DocState { buf: buf2, start: step_right(m.start, buf2), end: m.end, dirty: true }
    }
}

/// The state after `delete_before()`. At true `(0, 0)` with nothing to
/// merge (the first line is not empty, or there is no second line) it is a
/// no-op. Otherwise the start endpoint steps left; if the two endpoints
/// then share a line the end endpoint steps left too; and either the
/// character at the stepped start is removed in place, or — when the start
/// sits at the end of its line — the following line is merged into it and
/// the end endpoint's line index steps back to track the merge. With the
/// start at the end of the last line there is nothing to merge and only
/// the selection has moved.
pub open spec fn spec_delete_before(m: DocState) -> DocState {
    let ts0 = true_pos(m.start, m.buf);
    if ts0 == (0int, 0int) && !(m.buf.len() > 1 && row_len(m.buf, 0) == 0) {
        m
    } else {
        let s1 = step_left(m.start, m.buf);
        let e1 = if s1.1 == true_row(m.end.1, m.buf) {
            step_left(m.end, m.buf)
        } else {
            m.end
        };
        if s1.0 != row_len(m.buf, s1.1) {
            DocState {
                buf: m.buf.update(s1.1, m.buf[s1.1].remove(s1.0)),
                start: s1,
                end: e1,
                dirty: true,
            }
        } else if s1.1 + 1 < m.buf.len() {
            DocState {
                buf: m.buf.update(s1.1, m.buf[s1.1] + m.buf[s1.1 + 1]).remove(s1.1 + 1),
                start: s1,
                end: step_up(e1),
                dirty: true,
            }
        } else {
            DocState { buf: m.buf, start: s1, end: e1, dirty: m.dirty }
        }
    }
}

/// The state after `insert_line_before_cursor()`: the true start's line is
/// split at the start's column, the part before the split stays in place,
/// the part after becomes a new line right below, and the selection moves
/// to the start of that new line (start steps right, end steps down).
pub open spec fn spec_split_line(m: DocState) -> DocState {
    let ts = true_pos(m.start, m.buf);
    let buf1 = if ts.1 == m.buf.len() {
        m.buf.push(Seq::empty())
    } else {
        m.buf
    };
    let row = buf1[ts.1];
    let buf2 = buf1.update(ts.1, row.subrange(0, ts.0)).insert(
        ts.1 + 1,
        row.subrange(ts.0, row.len() as int),
    );
    DocState { buf: buf2, start: step_right(m.start, buf2), end: step_down(m.end, buf2), dirty: true }
}

/// Law: from a collapsed cursor at a true position on a real line (not the
/// virtual line past the buffer), inserting a character and then deleting
/// before the cursor restores the original buffer content and the original
/// cursor — both raw endpoints come back exactly, so the true position does
/// too. Only the dirty flag may differ afterwards.
pub proof fn lemma_insert_delete_inverse(m: DocState, ch: char)
    requires
        m.start == m.end,
        is_true(m.start, m.buf),
        m.start.0 >= 0,
        m.start.1 >= 0,
        m.start.1 < m.buf.len(),
    ensures
        spec_delete_before(spec_insert(m, ch)).buf == m.buf,
        spec_delete_before(spec_insert(m, ch)).start == m.start,
        spec_delete_before(spec_insert(m, ch)).end == m.end,
{
    let p = m.start;
    let buf = m.buf;
    let row = buf[p.1];
    assert(p.0 <= row.len());
    let row2 = row.insert(p.0, ch);
    assert(row2.len() == row.len() + 1);
    let buf2 = buf.update(p.1, row2);
    let m1 = spec_insert(m, ch);
    assert(m1.buf == buf2);
    assert(true_pos(p, buf2) == p);
    assert(m1.start == (p.0 + 1, p.1));
    assert(m1.end == (p.0 + 1, p.1));
    let m2 = spec_delete_before(m1);
    assert(true_pos(m1.start, buf2) == m1.start);
    assert(step_left(m1.start, buf2) == p);
    assert(row2.remove(p.0) =~= row);
    assert(m2.buf =~= buf);
    assert(m2.start == p);
    assert(m2.end == p);
}

/// Law: from a collapsed cursor at a true position on a real line,
/// splitting the line and then deleting before the cursor (which then sits
/// at the start of the new line) merges the two halves back: the original
/// lines, the original line count and the original raw cursor are restored.
pub proof fn lemma_split_merge_inverse(m: DocState)
    requires
        m.start == m.end,
        is_true(m.start, m.buf),
        m.start.0 >= 0,
        m.start.1 >= 0,
        m.start.1 < m.buf.len(),
    ensures
        spec_delete_before(spec_split_line(m)).buf == m.buf,
        spec_delete_before(spec_split_line(m)).start == m.start,
        spec_delete_before(spec_split_line(m)).end == m.end,
{
    let p = m.start;
    let buf = m.buf;
    let row = buf[p.1];
    assert(p.0 <= row.len());
    let before = row.subrange(0, p.0);
    let after = row.subrange(p.0, row.len() as int);
    let buf2 = buf.update(p.1, before).insert(p.1 + 1, after);
    let m1 = spec_split_line(m);
    assert(m1.buf == buf2);
    assert(buf2.len() == buf.len() + 1);
    assert(buf2[p.1] == before);
    assert(buf2[p.1 + 1] == after);
    assert(row_len(buf2, p.1) == p.0);
    assert(true_pos(p, buf2) == p);
    assert(m1.start == (0int, p.1 + 1));
    assert(m1.end == (p.0, p.1 + 1));
    let m2 = spec_delete_before(m1);
    assert(true_pos(m1.start, buf2) == m1.start);
    assert(step_left(m1.start, buf2) == (p.0, p.1));
    assert(before + after =~= row);
    assert(m2.buf =~= buf);
    assert(m2.start == p);
    assert(m2.end == p);
}

/// Law: from a collapsed cursor at a true position other than the buffer
/// start `(0, 0)`, moving left and then right returns the document to its
/// exact prior state — including across a line boundary, where the left
/// move wraps to the end of the previous line.
pub proof fn lemma_move_left_right_inverse(m: DocState)
    requires
        m.start == m.end,
        is_true(m.end, m.buf),
        m.end != (0int, 0int),
    ensures
        spec_action(
            spec_action(m, DocumentAction::SingleLine(SingleLineDocumentAction::MoveLeft)),
            DocumentAction::SingleLine(SingleLineDocumentAction::MoveRight),
        ) == m,
{
    crate::pos::lemma_step_left_right_inverse(m.end, m.buf);
    assert(spec_action(
        spec_action(m, DocumentAction::SingleLine(SingleLineDocumentAction::MoveLeft)),
        DocumentAction::SingleLine(SingleLineDocumentAction::MoveRight),
    ) =~~= m);
}

/// A pending file write: the path and the full serialized content, lines
/// joined with `'\n'` and no trailing newline.
pub struct WriteRequest {
    pub path: String,
    pub content: String,
}

/// A document: its identity, its line store, the selection over it and the
/// dirty flag that marks unsaved mutations.
pub struct Document {
    pub name: DocumentName,
    pub lines: Vec<String>,
    pub selection: InternalSelection,
    pub dirty: bool,
}

/// Replace line `i` of the store.
fn set_line(lines: &mut Vec<String>, i: usize, s: String)
    requires
        i < old(lines)@.len(),
    ensures
        final(lines)@ == old(lines)@.update(i as int, s),
{
    let sl = lines.as_mut_slice();
    sl[i] = s;
}

impl Document {
    /// The mathematical contents of the line store.
    pub open spec fn buf(&self) -> Buf {
        buf_of(self.lines@)
    }

    /// The whole observable engine state.
    pub open spec fn model(&self) -> DocState {
        DocState {
            buf: self.buf(),
            start: pos_view(self.selection.start),
            end: pos_view(self.selection.end),
            dirty: self.dirty,
        }
    }

    /// An empty, unnamed buffer, never persisted by a write.
    pub fn new_scratch() -> (d: Self)
        ensures
            d.name is Scratch,
            d.lines@.len() == 0,
            d.selection.start == (0usize, 0usize),
            d.selection.end == (0usize, 0usize),
            !d.dirty,
    {
        Self {
            name: DocumentName::Scratch,
            lines: Vec::new(),
            selection: InternalSelection::new(),
            dirty: false,
        }
    }

    /// A document over the given lines — the constructor behind opening a
    /// file: the caller reads the file (an unreadable one yields no lines)
    /// and hands the content here. A fresh document is clean and has its
    /// cursor at the buffer start.
    pub fn from_lines(name: DocumentName, lines: Vec<String>) -> (d: Self)
        ensures
            d.name == name,
            d.lines == lines,
            d.selection.start == (0usize, 0usize),
            d.selection.end == (0usize, 0usize),
            !d.dirty,
    {
        Self { name, lines, selection: InternalSelection::new(), dirty: false }
    }

    /// The current true selection, freshly clamped for rendering.
    pub fn selection(&self) -> (r: Selection)
        ensures
            pos_view(r.true_start) == true_pos(self.model().start, self.buf()),
            pos_view(r.true_end) == true_pos(self.model().end, self.buf()),
    {
        self.selection.to_selection(self.lines.as_slice())
    }

    /// The name shown to the user: the path, or a scratch marker.
    pub fn display_name(&self) -> (r: String)
        ensures
            self.name is Scratch ==> r@ == "[scratch]"@,
            self.name is Path ==> r@ == self.name->Path_0@,
    {
        match &self.name {
            DocumentName::Scratch => "[scratch]".to_owned(),
            DocumentName::Path(p) => p.clone(),
        }
    }

    /// The line store.
    pub fn lines(&self) -> (r: &Vec<String>)
        ensures
            r@ == self.lines@,
    {
        &self.lines
    }

    /// One line of the store, or nothing past its end.
    pub fn get_line(&self, index: usize) -> (r: Option<&str>)
        ensures
            index < self.lines@.len() ==> r is Some && r->Some_0@ == self.buf()[index as int],
            index >= self.lines@.len() ==> r is None,
    {
        if index < self.lines.len() {
            assert(self.buf()[index as int] == self.lines@[index as int]@);
            Some(self.lines[index].as_str())
        } else {
            None
        }
    }

    /// Whether the document holds unsaved mutations.
    pub fn dirty(&self) -> (r: bool)
        ensures
            r == self.dirty,
    {
        self.dirty
    }

    /// Insert `ch` at the true start position; see [`spec_insert`].
    pub fn insert(&mut self, ch: char)
        ensures
            final(self).name == old(self).name,
            final(self).model() == spec_insert(old(self).model(), ch),
    {
        let ghost m0 = self.model();
        let ts = self.selection.true_start(self.lines.as_slice());
        if ts.1 == self.lines.len() {
            self.lines.push(String::new());
            proof {
                assert(buf_of(self.lines@) =~= m0.buf.push(Seq::<char>::empty()));
            }
        }
        let ghost buf1 = buf_of(self.lines@);
        assert(buf1[ts.1 as int] == self.lines@[ts.1 as int]@);
        assert(ts.0 <= buf1[ts.1 as int].len());
        let nl = line_insert(&self.lines[ts.1], ts.0, ch);
        set_line(&mut self.lines, ts.1, nl);
        proof {
            assert(buf_of(self.lines@) =~= buf1.update(
                ts.1 as int,
                buf1[ts.1 as int].insert(ts.0 as int, ch),
            ));
        }
        let te = self.selection.true_end(self.lines.as_slice());
        if ts.1 == te.1 {
            self.selection.move_selection_right(self.lines.as_slice());
        } else {
            self.selection.extend_start_right(self.lines.as_slice());
        }
        self.dirty = true;
        proof {
            assert(self.model() =~~= spec_insert(m0, ch));
        }
    }

    /// Delete one step before the true start position, merging lines at a
    /// line start; see [`spec_delete_before`].
    pub fn delete_before(&mut self)
        ensures
            final(self).name == old(self).name,
            final(self).model() == spec_delete_before(old(self).model()),
    {
        let ghost m0 = self.model();
        let ts0 = self.selection.true_start(self.lines.as_slice());
        if ts0.0 == 0 && ts0.1 == 0 {
            let mergeable = self.lines.len() > 1 && {
                assert(m0.buf[0] == self.lines@[0]@);
                char_len(self.lines[0].as_str()) == 0
            };
            if !mergeable {
                proof {
                    assert(self.model() =~~= spec_delete_before(m0));
                }
                return;
            }
        }
        self.selection.extend_start_left(self.lines.as_slice());
        let ts = self.selection.true_start(self.lines.as_slice());
        proof {
            crate::pos::lemma_step_true(m0.start, m0.buf);
            assert(pos_view(ts) == step_left(m0.start, m0.buf));
        }
        let te = self.selection.true_end(self.lines.as_slice());
        if ts.1 == te.1 {
            self.selection.extend_end_left(self.lines.as_slice());
        }
        assert(ts.1 < self.lines@.len()) by {
            let t = true_pos(m0.start, m0.buf);
            if t.0 > 0 {
                assert(row_len(m0.buf, t.1) >= t.0);
            }
        };
        assert(m0.buf[ts.1 as int] == self.lines@[ts.1 as int]@);
        let rl = char_len(self.lines[ts.1].as_str());
        if ts.0 != rl {
            let nl = line_remove(&self.lines[ts.1], ts.0);
            set_line(&mut self.lines, ts.1, nl);
            self.dirty = true;
            proof {
                let s1 = step_left(m0.start, m0.buf);
                assert(buf_of(self.lines@) =~= m0.buf.update(s1.1, m0.buf[s1.1].remove(s1.0)));
            }
        } else {
            if ts.1 + 1 < self.lines.len() {
                let after = self.lines.remove(ts.1 + 1);
                let merged = line_concat(&self.lines[ts.1], &after);
                set_line(&mut self.lines, ts.1, merged);
                self.selection.extend_end_up();
                self.dirty = true;
                proof {
                    let s1 = step_left(m0.start, m0.buf);
                    assert(buf_of(self.lines@) =~= m0.buf.update(
                        s1.1,
                        m0.buf[s1.1] + m0.buf[s1.1 + 1],
                    ).remove(s1.1 + 1));
                }
            }
        }
        proof {
            assert(self.model() =~~= spec_delete_before(m0));
        }
    }

    /// Split the true start's line at the cursor, the tail becoming a new
    /// line below; see [`spec_split_line`].
    pub fn insert_line_before_cursor(&mut self)
        ensures
            final(self).name == old(self).name,
            final(self).model() == spec_split_line(old(self).model()),
    {
        let ghost m0 = self.model();
        let ts = self.selection.true_start(self.lines.as_slice());
        if ts.1 == self.lines.len() {
            self.lines.push(String::new());
            proof {
                assert(buf_of(self.lines@) =~= m0.buf.push(Seq::<char>::empty()));
            }
        }
        let ghost buf1 = buf_of(self.lines@);
        assert(buf1[ts.1 as int] == self.lines@[ts.1 as int]@);
        assert(ts.0 <= buf1[ts.1 as int].len());
        let (before, after) = line_split(&self.lines[ts.1], ts.0);
        set_line(&mut self.lines, ts.1, before);
        let n = self.lines.len();
        assert(ts.1 < n);
        self.lines.insert(ts.1 + 1, after);
        proof {
            let row = buf1[ts.1 as int];
            assert(buf_of(self.lines@) =~= buf1.update(ts.1 as int, row.subrange(0, ts.0 as int))
                .insert(ts.1 as int + 1, row.subrange(ts.0 as int, row.len() as int)));
        }
        self.selection.extend_start_right(self.lines.as_slice());
        self.selection.extend_end_down(self.lines.as_slice());
        self.dirty = true;
        proof {
            assert(self.model() =~~= spec_split_line(m0));
        }
    }

    /// The pending write, if one is due: a dirty document with a path
    /// identity yields its path and serialized content; a clean document,
    /// and a scratch document, yield nothing. Read-only: the state is
    /// untouched until [`Document::write_finished`] reports the outcome.
    pub fn write_request(&self) -> (r: Option<WriteRequest>)
        ensures
            r is Some <==> (self.dirty && self.name is Path),
            r is Some ==> r->Some_0.path@ == self.name->Path_0@ && r->Some_0.content@
                == join_lines(self.buf()),
    {
        if !self.dirty {
            return None;
        }
        match &self.name {
            DocumentName::Scratch => None,
            DocumentName::Path(p) => Some(
                WriteRequest { path: p.clone(), content: join_with_newlines(self.lines.as_slice()) },
            ),
        }
    }

    /// Record the outcome of a write: on success the document becomes
    /// clean; on failure it stays dirty, so a later write retries. Nothing
    /// else changes.
    pub fn write_finished(&mut self, ok: bool)
        ensures
            final(self).name == old(self).name,
            final(self).lines == old(self).lines,
            final(self).selection == old(self).selection,
            final(self).dirty == (old(self).dirty && !ok),
    {
        if ok {
            self.dirty = false;
        }
    }

    /// Move the cursor one step left (and collapse any range to it).
    pub fn move_left(&mut self)
        ensures
            final(self).name == old(self).name,
            final(self).lines == old(self).lines,
            final(self).dirty == old(self).dirty,
            final(self).model().end == step_left(old(self).model().end, old(self).buf()),
            final(self).model().start == final(self).model().end,
    {
        self.selection.move_left(self.lines.as_slice());
    }

    /// Move the cursor one step right (and collapse any range to it).
    pub fn move_right(&mut self)
        ensures
            final(self).name == old(self).name,
            final(self).lines == old(self).lines,
            final(self).dirty == old(self).dirty,
            final(self).model().end == step_right(old(self).model().end, old(self).buf()),
            final(self).model().start == final(self).model().end,
    {
        self.selection.move_right(self.lines.as_slice());
    }

    /// Move the cursor one line up (and collapse any range to it).
    pub fn move_up(&mut self)
        ensures
            final(self).name == old(self).name,
            final(self).lines == old(self).lines,
            final(self).dirty == old(self).dirty,
            final(self).model().end == step_up(old(self).model().end),
            final(self).model().start == final(self).model().end,
    {
        self.selection.move_up();
    }

    /// Move the cursor one line down (and collapse any range to it).
    pub fn move_down(&mut self)
        ensures
            final(self).name == old(self).name,
            final(self).lines == old(self).lines,
            final(self).dirty == old(self).dirty,
            final(self).model().end == step_down(old(self).model().end, old(self).buf()),
            final(self).model().start == final(self).model().end,
    {
        self.selection.move_down(self.lines.as_slice());
    }

    /// Step the active endpoint left; the anchor is fixed.
    pub fn extend_end_left(&mut self)
        ensures
            final(self).name == old(self).name,
            final(self).lines == old(self).lines,
            final(self).dirty == old(self).dirty,
            final(self).model().start == old(self).model().start,
            final(self).model().end == step_left(old(self).model().end, old(self).buf()),
    {
        self.selection.extend_end_left(self.lines.as_slice());
    }

    /// Step the active endpoint right; the anchor is fixed.
    pub fn extend_end_right(&mut self)
        ensures
            final(self).name == old(self).name,
            final(self).lines == old(self).lines,
            final(self).dirty == old(self).dirty,
            final(self).model().start == old(self).model().start,
            final(self).model().end == step_right(old(self).model().end, old(self).buf()),
    {
        self.selection.extend_end_right(self.lines.as_slice());
    }

    /// Step the active endpoint's raw line up; the anchor is fixed.
    pub fn extend_end_up(&mut self)
        ensures
            final(self).name == old(self).name,
            final(self).lines == old(self).lines,
            final(self).dirty == old(self).dirty,
            final(self).model().start == old(self).model().start,
            final(self).model().end == step_up(old(self).model().end),
    {
        self.selection.extend_end_up();
    }

    /// Step the active endpoint's raw line down; the anchor is fixed.
    pub fn extend_end_down(&mut self)
        ensures
            final(self).name == old(self).name,
            final(self).lines == old(self).lines,
            final(self).dirty == old(self).dirty,
            final(self).model().start == old(self).model().start,
            final(self).model().end == step_down(old(self).model().end, old(self).buf()),
    {
        self.selection.extend_end_down(self.lines.as_slice());
    }

    /// Step the anchor endpoint left; the active endpoint is fixed.
    pub fn extend_start_left(&mut self)
        ensures
            final(self).name == old(self).name,
            final(self).lines == old(self).lines,
            final(self).dirty == old(self).dirty,
            final(self).model().end == old(self).model().end,
            final(self).model().start == step_left(old(self).model().start, old(self).buf()),
    {
        self.selection.extend_start_left(self.lines.as_slice());
    }

    /// Step the anchor endpoint right; the active endpoint is fixed.
    pub fn extend_start_right(&mut self)
        ensures
            final(self).name == old(self).name,
            final(self).lines == old(self).lines,
            final(self).dirty == old(self).dirty,
            final(self).model().end == old(self).model().end,
            final(self).model().start == step_right(old(self).model().start, old(self).buf()),
    {
        self.selection.extend_start_right(self.lines.as_slice());
    }

    /// Step the anchor endpoint's raw line up; the active endpoint is
    /// fixed.
    pub fn extend_start_up(&mut self)
        ensures
            final(self).name == old(self).name,
            final(self).lines == old(self).lines,
            final(self).dirty == old(self).dirty,
            final(self).model().end == old(self).model().end,
            final(self).model().start == step_up(old(self).model().start),
    {
        self.selection.extend_start_up();
    }

    /// Step the anchor endpoint's raw line down; the active endpoint is
    /// fixed.
    pub fn extend_start_down(&mut self)
        ensures
            final(self).name == old(self).name,
            final(self).lines == old(self).lines,
            final(self).dirty == old(self).dirty,
            final(self).model().end == old(self).model().end,
            final(self).model().start == step_down(old(self).model().start, old(self).buf()),
    {
        self.selection.extend_start_down(self.lines.as_slice());
    }

    /// Translate both endpoints one step left, preserving the range shape.
    pub fn move_selection_left(&mut self)
        ensures
            final(self).name == old(self).name,
            final(self).lines == old(self).lines,
            final(self).dirty == old(self).dirty,
            final(self).model().start == step_left(old(self).model().start, old(self).buf()),
            final(self).model().end == step_left(old(self).model().end, old(self).buf()),
    {
        self.selection.move_selection_left(self.lines.as_slice());
    }

    /// Translate both endpoints one step right, preserving the range shape.
    pub fn move_selection_right(&mut self)
        ensures
            final(self).name == old(self).name,
            final(self).lines == old(self).lines,
            final(self).dirty == old(self).dirty,
            final(self).model().start == step_right(old(self).model().start, old(self).buf()),
            final(self).model().end == step_right(old(self).model().end, old(self).buf()),
    {
        self.selection.move_selection_right(self.lines.as_slice());
    }

    /// Translate both endpoints one line up.
    pub fn move_selection_up(&mut self)
        ensures
            final(self).name == old(self).name,
            final(self).lines == old(self).lines,
            final(self).dirty == old(self).dirty,
            final(self).model().start == step_up(old(self).model().start),
            final(self).model().end == step_up(old(self).model().end),
    {
        self.selection.move_selection_up();
    }

    /// Translate both endpoints one line down.
    pub fn move_selection_down(&mut self)
        ensures
            final(self).name == old(self).name,
            final(self).lines == old(self).lines,
            final(self).dirty == old(self).dirty,
            final(self).model().start == step_down(old(self).model().start, old(self).buf()),
            final(self).model().end == step_down(old(self).model().end, old(self).buf()),
    {
        self.selection.move_selection_down(self.lines.as_slice());
    }

    /// Apply one action to the document. For every action but `Write` this
    /// performs the corresponding state transition and returns nothing.
    /// For `Write` the state is untouched and the pending write, if one is
    /// due, is returned for the caller to perform; the caller then reports
    /// the outcome through [`Document::write_finished`].
    pub fn handle_action(&mut self, action: DocumentAction) -> (r: Option<WriteRequest>)
        ensures
            final(self).name == old(self).name,
            final(self).model() == spec_action(old(self).model(), action),
            r is Some <==> (action is Write && old(self).dirty && old(self).name is Path),
            r is Some ==> r->Some_0.path@ == old(self).name->Path_0@ && r->Some_0.content@
                == join_lines(old(self).buf()),
    {
        match action {
            DocumentAction::SingleLine(a) => {
                match a {
                    SingleLineDocumentAction::MoveLeft => self.move_left(),
                    SingleLineDocumentAction::MoveRight => self.move_right(),
                    SingleLineDocumentAction::Insert { ch } => self.insert(ch),
                    SingleLineDocumentAction::DeleteBefore => self.delete_before(),
                }
                None
            },
            DocumentAction::MoveUp => {
                self.move_up();
                None
            },
            DocumentAction::MoveDown => {
                self.move_down();
                None
            },
            DocumentAction::ExtendStartLeft => {
                self.extend_start_left();
                None
            },
            DocumentAction::ExtendStartRight => {
                self.extend_start_right();
                None
            },
            DocumentAction::ExtendStartUp => {
                self.extend_start_up();
                None
            },
            DocumentAction::ExtendStartDown => {
                self.extend_start_down();
                None
            },
            DocumentAction::ExtendEndLeft => {
                self.extend_end_left();
                None
            },
            DocumentAction::ExtendEndRight => {
                self.extend_end_right();
                None
            },
            DocumentAction::ExtendEndUp => {
                self.extend_end_up();
                None
            },
            DocumentAction::ExtendEndDown => {
                self.extend_end_down();
                None
            },
            DocumentAction::MoveSelectionLeft => {
                self.move_selection_left();
                None
            },
            DocumentAction::MoveSelectionRight => {
                self.move_selection_right();
                None
            },
            DocumentAction::MoveSelectionUp => {
                self.move_selection_up();
                None
            },
            DocumentAction::MoveSelectionDown => {
                self.move_selection_down();
                None
            },
            DocumentAction::InsertLineBeforeCursor => {
                self.insert_line_before_cursor();
                None
            },
            DocumentAction::Write => self.write_request(),
        }
    }
}

/// The state transition of every action: movement steps one or both
/// endpoints, editing rewrites the buffer, `Write` changes nothing (the
/// outcome of the file write is recorded separately).
pub open spec fn spec_action(m: DocState, action: DocumentAction) -> DocState {
    match action {
        DocumentAction::SingleLine(a) => match a {
            SingleLineDocumentAction::MoveLeft => {
                let e = step_left(m.end, m.buf);
                DocState { buf: m.buf, start: e, end: e, dirty: m.dirty }
            },
            SingleLineDocumentAction::MoveRight => {
                let e = step_right(m.end, m.buf);
                DocState { buf: m.buf, start: e, end: e, dirty: m.dirty }
            },
            SingleLineDocumentAction::Insert { ch } => spec_insert(m, ch),
            SingleLineDocumentAction::DeleteBefore => spec_delete_before(m),
        },
        DocumentAction::MoveUp => {
            let e = step_up(m.end);
            DocState { buf: m.buf, start: e, end: e, dirty: m.dirty }
        },
        DocumentAction::MoveDown => {
            let e = step_down(m.end, m.buf);
            DocState { buf: m.buf, start: e, end: e, dirty: m.dirty }
        },
        DocumentAction::ExtendStartLeft => DocState {
            buf: m.buf,
            start: step_left(m.start, m.buf),
            end: m.end,
            dirty: m.dirty,
        },
        DocumentAction::ExtendStartRight => DocState {
            buf: m.buf,
            start: step_right(m.start, m.buf),
            end: m.end,
            dirty: m.dirty,
        },
        DocumentAction::ExtendStartUp => DocState {
            buf: m.buf,
            start: step_up(m.start),
            end: m.end,
            dirty: m.dirty,
        },
        DocumentAction::ExtendStartDown => DocState {
            buf: m.buf,
            start: step_down(m.start, m.buf),
            end: m.end,
            dirty: m.dirty,
        },
        DocumentAction::ExtendEndLeft => DocState {
            buf: m.buf,
            start: m.start,
            end: step_left(m.end, m.buf),
            dirty: m.dirty,
        },
        DocumentAction::ExtendEndRight => DocState {
            buf: m.buf,
            start: m.start,
            end: step_right(m.end, m.buf),
            dirty: m.dirty,
        },
        DocumentAction::ExtendEndUp => DocState {
            buf: m.buf,
            start: m.start,
            end: step_up(m.end),
            dirty: m.dirty,
        },
        DocumentAction::ExtendEndDown => DocState {
            buf: m.buf,
            start: m.start,
            end: step_down(m.end, m.buf),
            dirty: m.dirty,
        },
        DocumentAction::MoveSelectionLeft => DocState {
            buf: m.buf,
            start: step_left(m.start, m.buf),
            end: step_left(m.end, m.buf),
            dirty: m.dirty,
        },
        DocumentAction::MoveSelectionRight => DocState {
            buf: m.buf,
            start: step_right(m.start, m.buf),
            end: step_right(m.end, m.buf),
            dirty: m.dirty,
        },
        DocumentAction::MoveSelectionUp => DocState {
            buf: m.buf,
            start: step_up(m.start),
            end: step_up(m.end),
            dirty: m.dirty,
        },
        DocumentAction::MoveSelectionDown => DocState {
            buf: m.buf,
            start: step_down(m.start, m.buf),
            end: step_down(m.end, m.buf),
            dirty: m.dirty,
        },
        DocumentAction::InsertLineBeforeCursor => spec_split_line(m),
        DocumentAction::Write => m,
    }
}

} // verus!
