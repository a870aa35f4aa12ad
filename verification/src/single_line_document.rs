//! The one-line sibling of the document: a single text line and a cursor
//! column, used for a command or input field.
//!
//! It shares the operation contract of the document restricted to one
//! dimension: the cursor stays clamped within `[0, character count]`, an
//! insert always collapses and advances, a delete at column zero is a
//! no-op (there is never a line to merge). The structurally multiline
//! operations are explicit no-ops.

use vstd::prelude::*;

use crate::action::SingleLineDocumentAction;
use crate::text::line_insert;
use crate::text::line_remove;

verus! {

/// A single mutable text line with a cursor column, counted in Unicode
/// scalar values.
pub struct SingleLineDocument {
    pub line: String,
    pub cursor: usize,
}

impl SingleLineDocument {
    /// Well-formed: the cursor sits inside `[0, character count]`.
    pub open spec fn wf(&self) -> bool {
        self.cursor <= self.line@.len()
    }

    /// An empty line with the cursor at its start.
    pub fn new() -> (d: Self)
        ensures
            d.line@.len() == 0,
            d.cursor == 0,
            d.wf(),
    {
        Self { line: String::new(), cursor: 0 }
    }

    /// The current text.
    pub fn line(&self) -> (r: &str)
        ensures
            r@ == self.line@,
    {
        self.line.as_str()
    }

    /// The cursor column.
    pub fn cursor(&self) -> (r: usize)
        ensures
            r == self.cursor,
    {
        self.cursor
    }

    /// Reset to an empty line with the cursor at its start.
    pub fn clear(&mut self)
        ensures
            final(self).line@.len() == 0,
            final(self).cursor == 0,
            final(self).wf(),
    {
        self.line = String::new();
        self.cursor = 0;
    }

    /// Move the cursor one column left, saturating at the line start.
    pub fn move_left(&mut self)
        ensures
            final(self).line == old(self).line,
            final(self).cursor == if old(self).cursor > 0 {
                (old(self).cursor - 1) as usize
            } else {
                0usize
            },
    {
        if self.cursor > 0 {
            self.cursor = self.cursor - 1;
        }
    }

    /// Move the cursor one column right, saturating at the end of the
    /// line.
    pub fn move_right(&mut self)
        requires
            old(self).wf(),
        ensures
            final(self).line == old(self).line,
            final(self).cursor == if old(self).cursor < old(self).line@.len() {
                (old(self).cursor + 1) as usize
            } else {
                old(self).cursor
            },
            final(self).wf(),
    {
        let n = crate::pos::char_len(self.line.as_str());
        if self.cursor < n {
            self.cursor = self.cursor + 1;
        }
    }

    /// Insert `ch` at the cursor and advance the cursor past it.
    pub fn insert(&mut self, ch: char)
        requires
            old(self).wf(),
            old(self).line@.len() < usize::MAX,
        ensures
            final(self).line@ == old(self).line@.insert(old(self).cursor as int, ch),
            final(self).cursor == old(self).cursor + 1,
            final(self).wf(),
    {
        let nl = line_insert(&self.line, self.cursor, ch);
        self.line = nl;
        self.cursor = self.cursor + 1;
    }

    /// Remove the character before the cursor and move the cursor back;
    /// a no-op at column zero.
    pub fn delete_before(&mut self)
        requires
            old(self).wf(),
        ensures
            old(self).cursor == 0 ==> final(self).line == old(self).line && final(self).cursor
                == 0,
            old(self).cursor > 0 ==> final(self).line@ == old(self).line@.remove(
                old(self).cursor - 1,
            ) && final(self).cursor == old(self).cursor - 1,
            final(self).wf(),
    {
        if self.cursor > 0 {
            self.cursor = self.cursor - 1;
            let nl = line_remove(&self.line, self.cursor);
            self.line = nl;
        }
    }

    /// Moving up is structurally meaningless on one line: an explicit
    /// no-op.
    pub fn move_up(&mut self)
        ensures
            final(self).line == old(self).line,
            final(self).cursor == old(self).cursor,
    {
    }

    /// Moving down is structurally meaningless on one line: an explicit
    /// no-op.
    pub fn move_down(&mut self)
        ensures
            final(self).line == old(self).line,
            final(self).cursor == old(self).cursor,
    {
    }

    /// A line split is structurally meaningless on one line: an explicit
    /// no-op.
    pub fn insert_line_before_cursor(&mut self)
        ensures
            final(self).line == old(self).line,
            final(self).cursor == old(self).cursor,
    {
    }

    /// Apply one single-line action.
    pub fn handle_action(&mut self, action: SingleLineDocumentAction)
        requires
            old(self).wf(),
            old(self).line@.len() < usize::MAX,
        ensures
            final(self).wf(),
            ({
                match action {
                    SingleLineDocumentAction::MoveLeft => final(self).line == old(self).line
                        && final(self).cursor == if old(self).cursor > 0 {
                        (old(self).cursor - 1) as usize
                    } else {
                        0usize
                    },
                    SingleLineDocumentAction::MoveRight => final(self).line == old(self).line
                        && final(self).cursor == if old(self).cursor < old(self).line@.len() {
                        (old(self).cursor + 1) as usize
                    } else {
                        old(self).cursor
                    },
                    SingleLineDocumentAction::Insert { ch } => final(self).line@
                        == old(self).line@.insert(old(self).cursor as int, ch)
                        && final(self).cursor == old(self).cursor + 1,
                    SingleLineDocumentAction::DeleteBefore => if old(self).cursor == 0 {
                        final(self).line == old(self).line && final(self).cursor == 0
                    } else {
                        final(self).line@ == old(self).line@.remove(old(self).cursor - 1)
                            && final(self).cursor == old(self).cursor - 1
                    },
                }
            }),
    {
        match action {
            SingleLineDocumentAction::MoveLeft => self.move_left(),
            SingleLineDocumentAction::MoveRight => self.move_right(),
            SingleLineDocumentAction::Insert { ch } => self.insert(ch),
            SingleLineDocumentAction::DeleteBefore => self.delete_before(),
        }
    }
}

} // verus!
