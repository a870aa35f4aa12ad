//! Positions and the clamp from raw to true positions.
//!
//! A position is a `(column, line)` pair; both components count Unicode
//! scalar values, never bytes. A *raw* position stored in a selection may
//! be stale with respect to the current buffer; the clamp turns it into a
//! *true* position, a valid address of the current buffer. The index equal
//! to the line count is a valid virtual line past the end of the buffer.

use vstd::prelude::*;

verus! {

/// The mathematical content of a line store: one sequence of Unicode scalar
/// values per line.
pub type Buf = Seq<Seq<char>>;

/// The content of an executable line store.
pub open spec fn buf_of(lines: Seq<String>) -> Buf {
    lines.map_values(|s: String| s@)
}

/// A `(column, line)` pair as mathematical integers.
pub open spec fn pos_view(p: (usize, usize)) -> (int, int) {
    (p.0 as int, p.1 as int)
}

/// Character count of row `y`; zero outside the buffer, in particular on
/// the virtual line at index `buf.len()`.
pub open spec fn row_len(buf: Buf, y: int) -> int {
    if 0 <= y < buf.len() {
        buf[y].len() as int
    } else {
        0
    }
}

/// Clamp a raw line index: line indices saturate at the virtual line.
pub open spec fn true_row(y: int, buf: Buf) -> int {
    if y <= buf.len() {
        y
    } else {
        buf.len() as int
    }
}

/// Clamp a raw position against the buffer: the line saturates at the
/// virtual line, the column at the character count of the clamped line.
pub open spec fn true_pos(p: (int, int), buf: Buf) -> (int, int) {
    let y = true_row(p.1, buf);
    let x = if p.0 <= row_len(buf, y) {
        p.0
    } else {
        row_len(buf, y)
    };
    (x, y)
}

/// A position that the clamp leaves unchanged: a valid buffer address.
pub open spec fn is_true(p: (int, int), buf: Buf) -> bool {
    true_pos(p, buf) == p
}

/// Lexicographic order on positions: by line, then by column.
pub open spec fn lex_leq(a: (int, int), b: (int, int)) -> bool {
    a.1 < b.1 || (a.1 == b.1 && a.0 <= b.0)
}

/// One step left from a raw position: clamp, then move one column back,
/// wrapping to the end of the previous line; a no-op at the buffer start.
pub open spec fn step_left(p: (int, int), buf: Buf) -> (int, int) {
    let t = true_pos(p, buf);
    if t.0 == 0 {
        if t.1 == 0 {
            (0int, 0int)
        } else {
            (row_len(buf, t.1 - 1), t.1 - 1)
        }
    } else {
        (t.0 - 1, t.1)
    }
}

/// One step right from a raw position: clamp, then move one column forward,
/// wrapping past the end of a line to column zero of the next line and
/// saturating at the virtual line.
pub open spec fn step_right(p: (int, int), buf: Buf) -> (int, int) {
    let t = true_pos(p, buf);
    if t.0 >= row_len(buf, t.1) {
        (0int, if t.1 < buf.len() { t.1 + 1 } else { t.1 })
    } else {
        (t.0 + 1, t.1)
    }
}

/// One step down: only the raw line index changes, saturating at the
/// virtual line; the raw column is kept, which yields the sticky-column
/// behaviour across vertical moves.
pub open spec fn step_down(p: (int, int), buf: Buf) -> (int, int) {
    if p.1 < buf.len() {
        (p.0, p.1 + 1)
    } else {
        p
    }
}

/// One step up: only the raw line index changes, saturating at zero; the
/// raw column is kept.
pub open spec fn step_up(p: (int, int)) -> (int, int) {
    if p.1 > 0 {
        (p.0, p.1 - 1)
    } else {
        (p.0, 0int)
    }
}

/// Law: the clamp is total and always lands inside the buffer — the line
/// within `[0, line count]`, the column within `[0, character count of the
/// clamped line]` (and the column is zero on the virtual line).
pub proof fn lemma_clamp_total(p: (int, int), buf: Buf)
    requires
        p.0 >= 0,
        p.1 >= 0,
    ensures
        0 <= true_pos(p, buf).1 <= buf.len(),
        0 <= true_pos(p, buf).0 <= row_len(buf, true_pos(p, buf).1),
{
}

/// The clamp is idempotent: a clamped position is a true position.
pub proof fn lemma_clamp_idempotent(p: (int, int), buf: Buf)
    requires
        p.0 >= 0,
        p.1 >= 0,
    ensures
        is_true(true_pos(p, buf), buf),
{
}

/// Stepping left or right always yields a true position.
pub proof fn lemma_step_true(p: (int, int), buf: Buf)
    requires
        p.0 >= 0,
        p.1 >= 0,
    ensures
        is_true(step_left(p, buf), buf),
        is_true(step_right(p, buf), buf),
{
}

/// Law: from a true position other than the buffer start `(0, 0)`, one
/// step left followed by one step right returns to the original position.
/// This covers the wrap at a line boundary: a step left from column zero
/// of line `n > 0` lands at the end of line `n - 1`, and the step right
/// wraps back to `(0, n)`.
pub proof fn lemma_step_left_right_inverse(p: (int, int), buf: Buf)
    requires
        is_true(p, buf),
        p != (0int, 0int),
    ensures
        step_right(step_left(p, buf), buf) == p,
{
}

/// Executable clamp: the unique true position for a raw position and the
/// current line store. Total: never fails, for any raw input.
pub fn clamp_pos(p: (usize, usize), lines: &[String]) -> (r: (usize, usize))
    ensures
        pos_view(r) == true_pos(pos_view(p), buf_of(lines@)),
{
    let y = if p.1 <= lines.len() {
        p.1
    } else {
        lines.len()
    };
    let rl = if y < lines.len() {
        char_len(lines[y].as_str())
    } else {
        0
    };
    let x = if p.0 <= rl {
        p.0
    } else {
        rl
    };
    assert(buf_of(lines@).len() == lines@.len());
    assert(y < lines.len() ==> buf_of(lines@)[y as int] == lines@[y as int]@);
    (x, y)
}

/// Character count of one line (Unicode scalar values, not bytes).
pub fn char_len(s: &str) -> (n: usize)
    ensures
        n == s@.len(),
{
    s.unicode_len()
}

} // verus!
