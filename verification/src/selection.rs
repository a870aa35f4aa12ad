//! The range selection: a pair of raw endpoints over a line store.
//!
//! `InternalSelection` owns two raw positions, `start` (the anchor) and
//! `end` (the active endpoint). Raw endpoints are never corrected in place
//! except by the explicit collapse operations; every read clamps them
//! against the current lines. `Selection` is the derived, read-only
//! snapshot of the two clamped endpoints handed to renderers.

use vstd::prelude::*;

use crate::pos::buf_of;
use crate::pos::clamp_pos;
use crate::pos::char_len;
use crate::pos::is_true;
use crate::pos::lex_leq;
use crate::pos::pos_view;
use crate::pos::row_len;
use crate::pos::step_down;
use crate::pos::step_left;
use crate::pos::step_right;
use crate::pos::step_up;
use crate::pos::true_pos;
use crate::pos::Buf;

verus! {

/// The lexicographically smaller of two positions; on a tie, the first.
pub open spec fn spec_min(a: (int, int), b: (int, int)) -> (int, int) {
    if lex_leq(a, b) {
        a
    } else {
        b
    }
}

/// The lexicographically larger of two positions; on a tie, the second.
pub open spec fn spec_max(a: (int, int), b: (int, int)) -> (int, int) {
    if lex_leq(a, b) {
        b
    } else {
        a
    }
}

/// Law: for any two endpoints, `spec_min` and `spec_max` are ordered, they
/// are the two endpoints themselves, and they do not depend on which
/// endpoint is the anchor and which is active (on ties the two orders pick
/// positions of equal value).
pub proof fn lemma_min_max_ordered(a: (int, int), b: (int, int))
    ensures
        lex_leq(spec_min(a, b), spec_max(a, b)),
        spec_min(a, b) == a || spec_min(a, b) == b,
        spec_max(a, b) == a || spec_max(a, b) == b,
        spec_min(b, a) == spec_min(a, b),
        spec_max(b, a) == spec_max(a, b),
{
}

/// The contribution of row `y` to the character count spanned by the range
/// `[lo, hi]`: a partial count on the first and last row, the full row
/// in between.
pub open spec fn row_span(buf: Buf, lo: (int, int), hi: (int, int), y: int) -> int {
    if y == lo.1 && y == hi.1 {
        hi.0 - lo.0
    } else if y == lo.1 {
        row_len(buf, y) - lo.0
    } else if y == hi.1 {
        hi.0
    } else {
        row_len(buf, y)
    }
}

/// Sum of the row contributions from row `y` up to `hi.1`, stopping at the
/// end of the buffer (the virtual line contributes nothing).
pub open spec fn span_len_from(buf: Buf, lo: (int, int), hi: (int, int), y: int) -> int
    decreases hi.1 + 1 - y,
{
    if y > hi.1 || y >= buf.len() {
        0
    } else {
        row_span(buf, lo, hi, y) + span_len_from(buf, lo, hi, y + 1)
    }
}

/// Character count spanned by the inclusive range `[lo, hi]`.
pub open spec fn span_len(buf: Buf, lo: (int, int), hi: (int, int)) -> int {
    span_len_from(buf, lo, hi, lo.1)
}

/// Every suffix of the spanned count is non-negative when the range is
/// ordered and both bounds are true positions.
proof fn lemma_span_nonneg(buf: Buf, lo: (int, int), hi: (int, int), y: int)
    requires
        lex_leq(lo, hi),
        is_true(lo, buf),
        is_true(hi, buf),
        lo.0 >= 0,
        hi.0 >= 0,
        lo.1 <= y,
    ensures
        span_len_from(buf, lo, hi, y) >= 0,
    decreases hi.1 + 1 - y,
{
    if !(y > hi.1 || y >= buf.len()) {
        assert(lo.0 <= row_len(buf, lo.1));
        assert(hi.0 <= row_len(buf, hi.1));
        lemma_span_nonneg(buf, lo, hi, y + 1);
    }
}

/// The derived snapshot of a selection: both endpoints clamped against the
/// lines current at the time it was computed. Read-only by construction:
/// renderers get a fresh value, never the mutable raw pair.
#[derive(Clone, Copy, Debug)]
pub struct Selection {
    pub true_start: (usize, usize),
    pub true_end: (usize, usize),
}

impl Selection {
    /// The clamped anchor endpoint.
    pub fn start(&self) -> (r: (usize, usize))
        ensures
            r == self.true_start,
    {
        self.true_start
    }

    /// The clamped active endpoint.
    pub fn end(&self) -> (r: (usize, usize))
        ensures
            r == self.true_end,
    {
        self.true_end
    }

    /// The endpoint that comes first in document order, by line then
    /// column; ties resolve to the start endpoint (equal content).
    pub fn min(&self) -> (r: (usize, usize))
        ensures
            pos_view(r) == spec_min(pos_view(self.true_start), pos_view(self.true_end)),
    {
        if self.true_start.1 < self.true_end.1 {
            self.true_start
        } else if self.true_start.1 == self.true_end.1 {
            if self.true_start.0 <= self.true_end.0 {
                self.true_start
            } else {
                self.true_end
            }
        } else {
            self.true_end
        }
    }

    /// The endpoint that comes last in document order; ties resolve to the
    /// end endpoint (equal content).
    pub fn max(&self) -> (r: (usize, usize))
        ensures
            pos_view(r) == spec_max(pos_view(self.true_start), pos_view(self.true_end)),
    {
        if self.true_start.1 < self.true_end.1 {
            self.true_end
        } else if self.true_start.1 == self.true_end.1 {
            if self.true_start.0 <= self.true_end.0 {
                self.true_end
            } else {
                self.true_start
            }
        } else {
            self.true_start
        }
    }
}

/// The mutable selection state: two raw `(column, line)` endpoints. Raw
/// values may be stale against the current buffer and are clamped on every
/// read; vertical moves keep the raw column, which gives the sticky-column
/// behaviour.
#[derive(Clone, Copy, Debug)]
pub struct InternalSelection {
    pub start: (usize, usize),
    pub end: (usize, usize),
}

impl InternalSelection {
    /// A collapsed selection at the buffer start.
    pub fn new() -> (s: Self)
        ensures
            s.start == (0usize, 0usize),
            s.end == (0usize, 0usize),
    {
        Self { start: (0, 0), end: (0, 0) }
    }

    /// The clamped anchor endpoint against the current lines.
    pub fn true_start(&self, lines: &[String]) -> (r: (usize, usize))
        ensures
            pos_view(r) == true_pos(pos_view(self.start), buf_of(lines@)),
    {
        clamp_pos(self.start, lines)
    }

    /// The clamped active endpoint against the current lines.
    pub fn true_end(&self, lines: &[String]) -> (r: (usize, usize))
        ensures
            pos_view(r) == true_pos(pos_view(self.end), buf_of(lines@)),
    {
        clamp_pos(self.end, lines)
    }

    /// The derived snapshot of both clamped endpoints.
    pub fn to_selection(&self, lines: &[String]) -> (r: Selection)
        ensures
            pos_view(r.true_start) == true_pos(pos_view(self.start), buf_of(lines@)),
            pos_view(r.true_end) == true_pos(pos_view(self.end), buf_of(lines@)),
    {
        Selection { true_start: self.true_start(lines), true_end: self.true_end(lines) }
    }

    /// Character count spanned by `[min, max]` inclusive across lines: a
    /// partial count on the first and last line of the span, full lines in
    /// between.
    pub fn len(&self, lines: &[String]) -> (n: usize)
        requires
            ({
                let buf = buf_of(lines@);
                let a = true_pos(pos_view(self.start), buf);
                let b = true_pos(pos_view(self.end), buf);
                span_len(buf, spec_min(a, b), spec_max(a, b)) <= usize::MAX
            }),
        ensures
            ({
                let buf = buf_of(lines@);
                let a = true_pos(pos_view(self.start), buf);
                let b = true_pos(pos_view(self.end), buf);
                n == span_len(buf, spec_min(a, b), spec_max(a, b))
            }),
    {
        let ghost buf = buf_of(lines@);
        let ts = self.true_start(lines);
        let te = self.true_end(lines);
        let (lo, hi) = if ts.1 < te.1 {
            (ts, te)
        } else if ts.1 == te.1 {
            if ts.0 <= te.0 {
                (ts, te)
            } else {
                (te, ts)
            }
        } else {
            (te, ts)
        };
        proof {
            crate::pos::lemma_clamp_idempotent(pos_view(self.start), buf);
            crate::pos::lemma_clamp_idempotent(pos_view(self.end), buf);
        }
        let ghost lov = pos_view(lo);
        let ghost hiv = pos_view(hi);
        let mut n: usize = 0;
        let mut y = lo.1;
        while y <= hi.1 && y < lines.len()
            invariant
                lov == spec_min(true_pos(pos_view(self.start), buf), true_pos(pos_view(self.end), buf)),
                hiv == spec_max(true_pos(pos_view(self.start), buf), true_pos(pos_view(self.end), buf)),
                lov == pos_view(lo),
                hiv == pos_view(hi),
                lex_leq(lov, hiv),
                is_true(lov, buf),
                is_true(hiv, buf),
                buf == buf_of(lines@),
                lo.1 <= y,
                n + span_len_from(buf, lov, hiv, y as int) == span_len(buf, lov, hiv),
                span_len(buf, lov, hiv) <= usize::MAX,
            decreases hi.1 + 1 - y,
        {
            assert(buf[y as int] == lines@[y as int]@);
            let rl = char_len(lines[y].as_str());
            let seg: usize = if y == lo.1 && y == hi.1 {
                hi.0 - lo.0
            } else if y == lo.1 {
                rl - lo.0
            } else if y == hi.1 {
                hi.0
            } else {
                rl
            };
            proof {
                lemma_span_nonneg(buf, lov, hiv, y as int + 1);
                assert(seg == row_span(buf, lov, hiv, y as int));
            }
            n = n + seg;
            y = y + 1;
        }
        proof {
            if y <= hi.1 {
                assert(span_len_from(buf, lov, hiv, y as int) == 0);
            }
        }
        n
    }

    /// Collapse the range to the raw active endpoint.
    pub fn collapse_to_end(&mut self)
        ensures
            final(self).start == old(self).end,
            final(self).end == old(self).end,
    {
        self.start = self.end;
    }

    /// Collapse the range to the raw anchor endpoint.
    pub fn collapse_to_start(&mut self)
        ensures
            final(self).start == old(self).start,
            final(self).end == old(self).start,
    {
        self.end = self.start;
    }

    /// Collapse the range to the clamped active endpoint.
    pub fn collapse_to_true_end(&mut self, lines: &[String])
        ensures
            pos_view(final(self).start) == true_pos(pos_view(old(self).end), buf_of(lines@)),
            final(self).end == final(self).start,
    {
        let te = self.true_end(lines);
        self.start = te;
        self.end = te;
    }

    /// Collapse the range to the clamped anchor endpoint.
    pub fn collapse_to_true_start(&mut self, lines: &[String])
        ensures
            pos_view(final(self).start) == true_pos(pos_view(old(self).start), buf_of(lines@)),
            final(self).end == final(self).start,
    {
        let ts = self.true_start(lines);
        self.start = ts;
        self.end = ts;
    }

    /// Move the cursor one step left: step the active endpoint and collapse
    /// to it.
    pub fn move_left(&mut self, lines: &[String])
        ensures
            pos_view(final(self).end) == step_left(pos_view(old(self).end), buf_of(lines@)),
            final(self).start == final(self).end,
    {
        self.extend_end_left(lines);
        self.collapse_to_end();
    }

    /// Move the cursor one step right: step the active endpoint and
    /// collapse to it.
    pub fn move_right(&mut self, lines: &[String])
        ensures
            pos_view(final(self).end) == step_right(pos_view(old(self).end), buf_of(lines@)),
            final(self).start == final(self).end,
    {
        self.extend_end_right(lines);
        self.collapse_to_end();
    }

    /// Move the cursor one line down: step the active endpoint and collapse
    /// to it.
    pub fn move_down(&mut self, lines: &[String])
        ensures
            pos_view(final(self).end) == step_down(pos_view(old(self).end), buf_of(lines@)),
            final(self).start == final(self).end,
    {
        self.extend_end_down(lines);
        self.collapse_to_end();
    }

    /// Move the cursor one line up: step the active endpoint and collapse
    /// to it.
    pub fn move_up(&mut self)
        ensures
            pos_view(final(self).end) == step_up(pos_view(old(self).end)),
            final(self).start == final(self).end,
    {
        self.extend_end_up();
        self.collapse_to_end();
    }

    /// Step the active endpoint one position left; the anchor is fixed.
    pub fn extend_end_left(&mut self, lines: &[String])
        ensures
            final(self).start == old(self).start,
            pos_view(final(self).end) == step_left(pos_view(old(self).end), buf_of(lines@)),
    {
        let e = clamp_pos(self.end, lines);
        if e.0 == 0 {
            if e.1 == 0 {
                self.end = (0, 0);
            } else {
                let y = e.1 - 1;
                assert(buf_of(lines@)[y as int] == lines@[y as int]@);
                let rl = char_len(lines[y].as_str());
                self.end = (rl, y);
            }
        } else {
            self.end = (e.0 - 1, e.1);
        }
    }

    /// Step the active endpoint one position right; the anchor is fixed.
    pub fn extend_end_right(&mut self, lines: &[String])
        ensures
            final(self).start == old(self).start,
            pos_view(final(self).end) == step_right(pos_view(old(self).end), buf_of(lines@)),
    {
        let e = clamp_pos(self.end, lines);
        let rl = if e.1 < lines.len() {
            assert(buf_of(lines@)[e.1 as int] == lines@[e.1 as int]@);
            char_len(lines[e.1].as_str())
        } else {
            0
        };
        if e.0 >= rl {
            if e.1 < lines.len() {
                self.end = (0, e.1 + 1);
            } else {
                self.end = (0, e.1);
            }
        } else {
            self.end = (e.0 + 1, e.1);
        }
    }

    /// Step the raw active line index one line down, saturating at the
    /// virtual line; the raw column is kept.
    pub fn extend_end_down(&mut self, lines: &[String])
        ensures
            final(self).start == old(self).start,
            pos_view(final(self).end) == step_down(pos_view(old(self).end), buf_of(lines@)),
    {
        if self.end.1 < lines.len() {
            self.end = (self.end.0, self.end.1 + 1);
        }
        assert(buf_of(lines@).len() == lines@.len());
    }

    /// Step the raw active line index one line up, saturating at zero; the
    /// raw column is kept.
    pub fn extend_end_up(&mut self)
        ensures
            final(self).start == old(self).start,
            pos_view(final(self).end) == step_up(pos_view(old(self).end)),
    {
        if self.end.1 > 0 {
            self.end = (self.end.0, self.end.1 - 1);
        }
    }

    /// Step the anchor endpoint one position left; the active endpoint is
    /// fixed.
    pub fn extend_start_left(&mut self, lines: &[String])
        ensures
            final(self).end == old(self).end,
            pos_view(final(self).start) == step_left(pos_view(old(self).start), buf_of(lines@)),
    {
        let s = clamp_pos(self.start, lines);
        if s.0 == 0 {
            if s.1 == 0 {
                self.start = (0, 0);
            } else {
                let y = s.1 - 1;
                assert(buf_of(lines@)[y as int] == lines@[y as int]@);
                let rl = char_len(lines[y].as_str());
                self.start = (rl, y);
            }
        } else {
            self.start = (s.0 - 1, s.1);
        }
    }

    /// Step the anchor endpoint one position right; the active endpoint is
    /// fixed.
    pub fn extend_start_right(&mut self, lines: &[String])
        ensures
            final(self).end == old(self).end,
            pos_view(final(self).start) == step_right(pos_view(old(self).start), buf_of(lines@)),
    {
        let s = clamp_pos(self.start, lines);
        let rl = if s.1 < lines.len() {
            assert(buf_of(lines@)[s.1 as int] == lines@[s.1 as int]@);
            char_len(lines[s.1].as_str())
        } else {
            0
        };
        if s.0 >= rl {
            if s.1 < lines.len() {
                self.start = (0, s.1 + 1);
            } else {
                self.start = (0, s.1);
            }
        } else {
            self.start = (s.0 + 1, s.1);
        }
    }

    /// Step the raw anchor line index one line down, saturating at the
    /// virtual line; the raw column is kept.
    pub fn extend_start_down(&mut self, lines: &[String])
        ensures
            final(self).end == old(self).end,
            pos_view(final(self).start) == step_down(pos_view(old(self).start), buf_of(lines@)),
    {
        if self.start.1 < lines.len() {
            self.start = (self.start.0, self.start.1 + 1);
        }
        assert(buf_of(lines@).len() == lines@.len());
    }

    /// Step the raw anchor line index one line up, saturating at zero; the
    /// raw column is kept.
    pub fn extend_start_up(&mut self)
        ensures
            final(self).end == old(self).end,
            pos_view(final(self).start) == step_up(pos_view(old(self).start)),
    {
        if self.start.1 > 0 {
            self.start = (self.start.0, self.start.1 - 1);
        }
    }

    /// Translate both endpoints one step left, preserving the range shape.
    pub fn move_selection_left(&mut self, lines: &[String])
        ensures
            pos_view(final(self).start) == step_left(pos_view(old(self).start), buf_of(lines@)),
            pos_view(final(self).end) == step_left(pos_view(old(self).end), buf_of(lines@)),
    {
        self.extend_end_left(lines);
        self.extend_start_left(lines);
    }

    /// Translate both endpoints one step right, preserving the range shape.
    pub fn move_selection_right(&mut self, lines: &[String])
        ensures
            pos_view(final(self).start) == step_right(pos_view(old(self).start), buf_of(lines@)),
            pos_view(final(self).end) == step_right(pos_view(old(self).end), buf_of(lines@)),
    {
        self.extend_end_right(lines);
        self.extend_start_right(lines);
    }

    /// Translate both endpoints one line down.
    pub fn move_selection_down(&mut self, lines: &[String])
        ensures
            pos_view(final(self).start) == step_down(pos_view(old(self).start), buf_of(lines@)),
            pos_view(final(self).end) == step_down(pos_view(old(self).end), buf_of(lines@)),
    {
        self.extend_end_down(lines);
        self.extend_start_down(lines);
    }

    /// Translate both endpoints one line up.
    pub fn move_selection_up(&mut self)
        ensures
            pos_view(final(self).start) == step_up(pos_view(old(self).start)),
            pos_view(final(self).end) == step_up(pos_view(old(self).end)),
    {
        self.extend_end_up();
        self.extend_start_up();
    }
}

} // verus!
