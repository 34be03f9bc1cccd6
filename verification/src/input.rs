//! The text field of the overlays: a string and a cursor counted in characters.
use vstd::prelude::*;

use crate::text::{chars_of, is_whitespace, is_ws, push_chars, string_of_range};

verus! {

/// The character position that a cursor stands for: past the end counts as the end.
pub open spec fn cursor_pos(buf: Seq<char>, cursor: usize) -> int {
    if cursor <= buf.len() {
        cursor as int
    } else {
        buf.len() as int
    }
}

/// `buf` with `ins` inserted before position `pos`.
pub open spec fn insert_at(buf: Seq<char>, pos: int, ins: Seq<char>) -> Seq<char> {
    buf.take(pos) + ins + buf.skip(pos)
}

/// `buf` with the characters in `[from, to)` removed.
pub open spec fn remove_range(buf: Seq<char>, from: int, to: int) -> Seq<char> {
    buf.take(from) + buf.skip(to)
}

/// From position `p`, the position reached by stepping left over characters whose
/// whitespace-ness is `ws`.
pub open spec fn back_while(buf: Seq<char>, p: int, ws: bool) -> int
    decreases p,
{
    if 0 < p <= buf.len() && is_ws(buf[p - 1]) == ws {
        back_while(buf, p - 1, ws)
    } else {
        p
    }
}

/// From position `p`, the position reached by stepping right over characters whose
/// whitespace-ness is `ws`.
pub open spec fn fwd_while(buf: Seq<char>, p: int, ws: bool) -> int
    decreases buf.len() - p,
{
    if 0 <= p < buf.len() && is_ws(buf[p]) == ws {
        fwd_while(buf, p + 1, ws)
    } else {
        p
    }
}

/// Where a word-left move from `p` lands: over whitespace, then over a word.
pub open spec fn word_left(buf: Seq<char>, p: int) -> int {
    back_while(buf, back_while(buf, p, true), false)
}

/// Where a word-right move from `p` lands: over whitespace, then over a word.
pub open spec fn word_right(buf: Seq<char>, p: int) -> int {
    fwd_while(buf, fwd_while(buf, p, true), false)
}

proof fn lemma_back_while_bounds(buf: Seq<char>, p: int, ws: bool)
    requires
        0 <= p <= buf.len(),
    ensures
        0 <= back_while(buf, p, ws) <= p,
    decreases p,
{
    if 0 < p && is_ws(buf[p - 1]) == ws {
        lemma_back_while_bounds(buf, p - 1, ws);
    }
}

proof fn lemma_fwd_while_bounds(buf: Seq<char>, p: int, ws: bool)
    requires
        0 <= p <= buf.len(),
    ensures
        p <= fwd_while(buf, p, ws) <= buf.len(),
    decreases buf.len() - p,
{
    if p < buf.len() && is_ws(buf[p]) == ws {
        lemma_fwd_while_bounds(buf, p + 1, ws);
    }
}

/// Word moves stay inside the buffer.
pub proof fn lemma_word_moves_in_bounds(buf: Seq<char>, p: int)
    requires
        0 <= p <= buf.len(),
    ensures
        0 <= word_left(buf, p) <= p,
        p <= word_right(buf, p) <= buf.len(),
{
    lemma_back_while_bounds(buf, p, true);
    lemma_back_while_bounds(buf, back_while(buf, p, true), false);
    lemma_fwd_while_bounds(buf, p, true);
    lemma_fwd_while_bounds(buf, fwd_while(buf, p, true), false);
}

fn back_while_exec(v: &Vec<char>, p: usize, ws: bool) -> (q: usize)
    requires
        p <= v.len(),
    ensures
        q == back_while(v@, p as int, ws),
{
    let mut q = p;
    while q > 0 && is_whitespace(v[q - 1]) == ws
        invariant
            q <= p <= v.len(),
            back_while(v@, p as int, ws) == back_while(v@, q as int, ws),
        decreases q,
    {
        q -= 1;
    }
    q
}

fn fwd_while_exec(v: &Vec<char>, p: usize, ws: bool) -> (q: usize)
    requires
        p <= v.len(),
    ensures
        q == fwd_while(v@, p as int, ws),
{
    let mut q = p;
    while q < v.len() && is_whitespace(v[q]) == ws
        invariant
            p <= q <= v.len(),
            fwd_while(v@, p as int, ws) == fwd_while(v@, q as int, ws),
        decreases v.len() - q,
    {
        q += 1;
    }
    q
}

/// `v[..from] + ins + v[to..]` as a string.
fn splice(v: &Vec<char>, from: usize, to: usize, ins: &[char]) -> (s: String)
    requires
        from <= to <= v.len(),
    ensures
        s@ == v@.take(from as int) + ins@ + v@.skip(to as int),
{
    let mut s = string_of_range(v.as_slice(), 0, from);
    push_chars(&mut s, ins);
    let tail = string_of_range(v.as_slice(), to, v.len());
    let tv = chars_of(tail.as_str());
    push_chars(&mut s, tv.as_slice());
    assert(v@.subrange(0, from as int) == v@.take(from as int));
    assert(v@.subrange(to as int, v@.len() as int) == v@.skip(to as int));
    s
}

/// The cursor as a position inside `v`.
fn clamp_cursor(v: &Vec<char>, cursor: usize) -> (p: usize)
    ensures
        p == cursor_pos(v@, cursor),
        p <= v.len(),
{
    if cursor <= v.len() {
        cursor
    } else {
        v.len()
    }
}

/// Inserts `ins` at the cursor and moves the cursor past it.
pub fn insert_text(buf: &mut String, cursor: &mut usize, ins: &str)
    requires
        *old(cursor) + ins@.len() <= usize::MAX,
    ensures
        final(buf)@ == insert_at(old(buf)@, cursor_pos(old(buf)@, *old(cursor)), ins@),
        *final(cursor) == *old(cursor) + ins@.len(),
{
    let v = chars_of(buf.as_str());
    let p = clamp_cursor(&v, *cursor);
    let w = chars_of(ins);
    *buf = splice(&v, p, p, w.as_slice());
    *cursor = *cursor + w.len();
}

/// Inserts `c` at the cursor and moves the cursor past it.
pub fn insert_char(buf: &mut String, cursor: &mut usize, c: char)
    requires
        *old(cursor) < usize::MAX,
    ensures
        final(buf)@ == insert_at(old(buf)@, cursor_pos(old(buf)@, *old(cursor)), seq![c]),
        *final(cursor) == *old(cursor) + 1,
{
    let v = chars_of(buf.as_str());
    let p = clamp_cursor(&v, *cursor);
    let w = vec![c];
    *buf = splice(&v, p, p, w.as_slice());
    *cursor = *cursor + 1;
}

/// The text after a backspace with the cursor at `cursor`.
pub open spec fn after_backspace(buf: Seq<char>, cursor: int) -> Seq<char> {
    if cursor > 0 {
        remove_range(buf, cursor - 1, cursor)
    } else {
        buf
    }
}

/// Removes the character before the cursor and steps the cursor back over it.
pub fn backspace(buf: &mut String, cursor: &mut usize)
    requires
        *old(cursor) <= old(buf)@.len(),
    ensures
        final(buf)@ == after_backspace(old(buf)@, *old(cursor) as int),
        *final(cursor) == if *old(cursor) > 0 { *old(cursor) - 1 } else { 0 },
{
    if *cursor > 0 {
        let v = chars_of(buf.as_str());
        let p = *cursor - 1;
        let none: Vec<char> = Vec::new();
        *buf = splice(&v, p, p + 1, none.as_slice());
        *cursor = p;
    }
}

/// Removes the character under the cursor.
pub fn delete_under(buf: &mut String, cursor: usize)
    ensures
        cursor < old(buf)@.len() ==> final(buf)@ == remove_range(old(buf)@, cursor as int, cursor + 1),
        cursor >= old(buf)@.len() ==> final(buf)@ == old(buf)@,
{
    let v = chars_of(buf.as_str());
    if cursor < v.len() {
        let none: Vec<char> = Vec::new();
        *buf = splice(&v, cursor, cursor + 1, none.as_slice());
    }
}

/// The cursor one character to the left, stopping at the start.
pub fn step_left(cursor: usize) -> (r: usize)
    ensures
        r == if cursor > 0 { (cursor - 1) as usize } else { 0 },
{
    if cursor > 0 {
        cursor - 1
    } else {
        0
    }
}

/// The cursor one character to the right, stopping at the end of `buf`.
pub fn step_right(buf: &String, cursor: usize) -> (r: usize)
    requires
        cursor < usize::MAX,
    ensures
        r == if cursor + 1 <= buf@.len() { cursor + 1 } else { buf@.len() as int },
{
    let n = chars_of(buf.as_str()).len();
    let next = cursor + 1;
    if next <= n {
        next
    } else {
        n
    }
}

/// The number of characters in `buf`: the cursor position of its end.
pub fn end_of(buf: &String) -> (r: usize)
    ensures
        r == buf@.len(),
{
    chars_of(buf.as_str()).len()
}

/// Where a word-left move of the cursor lands.
pub fn word_left_of(buf: &String, cursor: usize) -> (r: usize)
    ensures
        r == word_left(buf@, cursor_pos(buf@, cursor)),
{
    let v = chars_of(buf.as_str());
    let p = clamp_cursor(&v, cursor);
    let q = back_while_exec(&v, p, true);
    proof {
        lemma_back_while_bounds(v@, p as int, true);
    }
    back_while_exec(&v, q, false)
}

/// Where a word-right move of the cursor lands.
pub fn word_right_of(buf: &String, cursor: usize) -> (r: usize)
    ensures
        r == word_right(buf@, cursor_pos(buf@, cursor)),
{
    let v = chars_of(buf.as_str());
    let p = clamp_cursor(&v, cursor);
    let q = fwd_while_exec(&v, p, true);
    proof {
        lemma_fwd_while_bounds(v@, p as int, true);
    }
    fwd_while_exec(&v, q, false)
}

/// Removes the text from the cursor to the end of the next word.
pub fn delete_word_right(buf: &mut String, cursor: &mut usize)
    ensures
        final(buf)@ == remove_range(
            old(buf)@,
            cursor_pos(old(buf)@, *old(cursor)),
            word_right(old(buf)@, cursor_pos(old(buf)@, *old(cursor))),
        ),
        *final(cursor) == cursor_pos(old(buf)@, *old(cursor)),
{
    let v = chars_of(buf.as_str());
    let p = clamp_cursor(&v, *cursor);
    let q = fwd_while_exec(&v, p, true);
    proof {
        lemma_fwd_while_bounds(v@, p as int, true);
    }
    let e = fwd_while_exec(&v, q, false);
    proof {
        lemma_fwd_while_bounds(v@, q as int, false);
    }
    let none: Vec<char> = Vec::new();
    *buf = splice(&v, p, e, none.as_slice());
    *cursor = p;
}

/// The text before and after the cursor.
pub fn split_at_cursor(buf: &String, cursor: usize) -> (r: (String, String))
    ensures
        r.0@ == buf@.take(cursor_pos(buf@, cursor)),
        r.1@ == buf@.skip(cursor_pos(buf@, cursor)),
{
    let v = chars_of(buf.as_str());
    let p = clamp_cursor(&v, cursor);
    let a = string_of_range(v.as_slice(), 0, p);
    let b = string_of_range(v.as_slice(), p, v.len());
    assert(v@.subrange(0, p as int) == v@.take(p as int));
    assert(v@.subrange(p as int, v@.len() as int) == v@.skip(p as int));
    (a, b)
}

} // verus!
