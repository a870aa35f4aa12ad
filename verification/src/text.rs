//! Verified character-level surgery on single lines, and the join used to
//! serialize a buffer.
//!
//! All indices are counts of Unicode scalar values; the byte-level work is
//! done by `str::substring_char` and `String::append` under their vstd
//! contracts.

use vstd::prelude::*;

use crate::pos::Buf;

verus! {

/// Relies on char::to_string: the string holding exactly this one
/// character.
#[verifier::external_body]
pub fn char_to_string(ch: char) -> (r: String)
    ensures
        r@ == seq![ch],
{
    ch.to_string()
}

/// A copy of `line` with `ch` inserted at character index `i`.
pub fn line_insert(line: &String, i: usize, ch: char) -> (r: String)
    requires
        i <= line@.len(),
    ensures
        r@ == line@.insert(i as int, ch),
{
    let n = crate::pos::char_len(line.as_str());
    let before = line.as_str().substring_char(0, i);
    let after = line.as_str().substring_char(i, n);
    let mut r = before.to_owned();
    let mid = char_to_string(ch);
    r.append(mid.as_str());
    r.append(after);
    assert(r@ =~= line@.insert(i as int, ch));
    r
}

/// A copy of `line` with the character at character index `i` removed.
pub fn line_remove(line: &String, i: usize) -> (r: String)
    requires
        i < line@.len(),
    ensures
        r@ == line@.remove(i as int),
{
    let n = crate::pos::char_len(line.as_str());
    let before = line.as_str().substring_char(0, i);
    let after = line.as_str().substring_char(i + 1, n);
    let mut r = before.to_owned();
    r.append(after);
    assert(r@ =~= line@.remove(i as int));
    r
}

/// `line` split at character index `i`: the part before (kept in place by
/// a line split) and the part from `i` on.
pub fn line_split(line: &String, i: usize) -> (r: (String, String))
    requires
        i <= line@.len(),
    ensures
        r.0@ == line@.subrange(0, i as int),
        r.1@ == line@.subrange(i as int, line@.len() as int),
{
    let n = crate::pos::char_len(line.as_str());
    let before = line.as_str().substring_char(0, i);
    let after = line.as_str().substring_char(i, n);
    (before.to_owned(), after.to_owned())
}

/// The concatenation of two lines, as produced by a line merge.
pub fn line_concat(a: &String, b: &String) -> (r: String)
    requires
        true,
    ensures
        r@ == a@ + b@,
{
    let mut r = a.clone();
    r.append(b.as_str());
    r
}

/// The first `i` rows joined with a newline between consecutive rows.
pub open spec fn join_upto(buf: Buf, i: int) -> Seq<char>
    decreases i,
{
    if i <= 0 {
        Seq::empty()
    } else if i == 1 {
        buf[0]
    } else {
        join_upto(buf, i - 1) + seq!['\n'] + buf[i - 1]
    }
}

/// The whole buffer joined with `'\n'` between lines — the on-disk form:
/// no trailing newline.
pub open spec fn join_lines(buf: Buf) -> Seq<char> {
    join_upto(buf, buf.len() as int)
}

/// All lines joined with `'\n'`, no terminator after the last.
pub fn join_with_newlines(lines: &[String]) -> (r: String)
    ensures
        r@ == join_lines(crate::pos::buf_of(lines@)),
{
    let ghost buf = crate::pos::buf_of(lines@);
    let mut r = String::new();
    let mut i: usize = 0;
    proof {
        reveal_strlit("\n");
    }
    while i < lines.len()
        invariant
            i <= lines.len(),
            buf == crate::pos::buf_of(lines@),
            r@ == join_upto(buf, i as int),
            "\n"@ == seq!['\n'],
        decreases lines.len() - i,
    {
        assert(buf[i as int] == lines@[i as int]@);
        if i > 0 {
            r.append("\n");
        }
        r.append(lines[i].as_str());
        assert(r@ =~= join_upto(buf, i as int + 1));
        i = i + 1;
    }
    r
}

} // verus!
