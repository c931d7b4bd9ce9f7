//! Cursor arithmetic on a buffer of characters: lines, columns and words.
//! Positions count characters, never bytes.
use vstd::prelude::*;
use crate::text::{is_space, is_whitespace};

verus! {

/// Start of the line that holds position `k`: just after the last `'\n'`
/// before `k`, or 0.
pub open spec fn line_start(s: Seq<char>, k: int) -> int
    decreases k,
{
    if k <= 0 {
        0
    } else if s[k - 1] == '\n' {
        k
    } else {
        line_start(s, k - 1)
    }
}

/// End of the line that holds position `k`: the first `'\n'` at or after
/// `k`, or the end of the buffer.
pub open spec fn line_end(s: Seq<char>, k: int) -> int
    decreases s.len() - k,
{
    if k >= s.len() {
        s.len() as int
    } else if s[k] == '\n' {
        k
    } else {
        line_end(s, k + 1)
    }
}

pub open spec fn min_int(a: int, b: int) -> int {
    if a <= b {
        a
    } else {
        b
    }
}

/// Where the cursor at `c` lands one line up: the same column, clamped to
/// the end of the previous line; `c` itself on the first line.
pub open spec fn cursor_up(s: Seq<char>, c: int) -> int {
    let ls = line_start(s, c);
    if ls > 0 {
        let ps = line_start(s, ls - 1);
        ps + min_int(c - ls, ls - 1 - ps)
    } else {
        c
    }
}

/// Where the cursor at `c` lands one line down: the same column, clamped to
/// the end of the next line; `c` itself on the last line.
pub open spec fn cursor_down(s: Seq<char>, c: int) -> int {
    let ls = line_start(s, c);
    let e = line_end(s, c);
    if e < s.len() {
        let next = e + 1;
        next + min_int(c - ls, line_end(s, next) - next)
    } else {
        c
    }
}

/// Back from `k` over whitespace.
pub open spec fn skip_spaces_back(s: Seq<char>, k: int) -> int
    decreases k,
{
    if k > 0 && is_space(s[k - 1]) {
        skip_spaces_back(s, k - 1)
    } else {
        k
    }
}

/// Back from `k` over characters that are not whitespace.
pub open spec fn skip_word_back(s: Seq<char>, k: int) -> int
    decreases k,
{
    if k > 0 && !is_space(s[k - 1]) {
        skip_word_back(s, k - 1)
    } else {
        k
    }
}

/// Where the word before `k` starts: trailing whitespace first, then one run
/// of other characters.
pub open spec fn word_start(s: Seq<char>, k: int) -> int {
    skip_word_back(s, skip_spaces_back(s, k))
}

pub proof fn lemma_line_start_bounds(s: Seq<char>, k: int)
    requires
        0 <= k <= s.len(),
    ensures
        0 <= line_start(s, k) <= k,
        line_start(s, k) == 0 || s[line_start(s, k) - 1] == '\n',
        forall|i: int| line_start(s, k) <= i < k ==> s[i] != '\n',
    decreases k,
{
    if k > 0 && s[k - 1] != '\n' {
        lemma_line_start_bounds(s, k - 1);
    }
}

/// A position that starts a line, followed by no `'\n'` up to `k`, is the
/// start of `k`'s line.
pub proof fn lemma_line_start_is(s: Seq<char>, a: int, k: int)
    requires
        0 <= a <= k <= s.len(),
        a == 0 || s[a - 1] == '\n',
        forall|i: int| a <= i < k ==> s[i] != '\n',
    ensures
        line_start(s, k) == a,
    decreases k,
{
    if k > a {
        lemma_line_start_is(s, a, k - 1);
    }
}

pub proof fn lemma_line_end_bounds(s: Seq<char>, k: int)
    requires
        0 <= k <= s.len(),
    ensures
        k <= line_end(s, k) <= s.len(),
        line_end(s, k) == s.len() || s[line_end(s, k)] == '\n',
        forall|i: int| k <= i < line_end(s, k) ==> s[i] != '\n',
    decreases s.len() - k,
{
    if k < s.len() && s[k] != '\n' {
        lemma_line_end_bounds(s, k + 1);
    }
}

pub proof fn lemma_cursor_moves_stay_in_buffer(s: Seq<char>, c: int)
    requires
        0 <= c <= s.len(),
    ensures
        0 <= cursor_up(s, c) <= s.len(),
        0 <= cursor_down(s, c) <= s.len(),
{
    lemma_line_start_bounds(s, c);
    let ls = line_start(s, c);
    if ls > 0 {
        lemma_line_start_bounds(s, ls - 1);
    }
    lemma_line_end_bounds(s, c);
    let e = line_end(s, c);
    if e < s.len() {
        lemma_line_end_bounds(s, e + 1);
    }
}

pub proof fn lemma_word_start_bounds(s: Seq<char>, k: int)
    requires
        0 <= k <= s.len(),
    ensures
        0 <= skip_spaces_back(s, k) <= k,
        0 <= word_start(s, k) <= skip_spaces_back(s, k),
    decreases k,
{
    lemma_skip_spaces_bounds(s, k);
    lemma_skip_word_bounds(s, skip_spaces_back(s, k));
}

proof fn lemma_skip_spaces_bounds(s: Seq<char>, k: int)
    requires
        0 <= k <= s.len(),
    ensures
        0 <= skip_spaces_back(s, k) <= k,
    decreases k,
{
    if k > 0 && is_space(s[k - 1]) {
        lemma_skip_spaces_bounds(s, k - 1);
    }
}

proof fn lemma_skip_word_bounds(s: Seq<char>, k: int)
    requires
        0 <= k <= s.len(),
    ensures
        0 <= skip_word_back(s, k) <= k,
    decreases k,
{
    if k > 0 && !is_space(s[k - 1]) {
        lemma_skip_word_bounds(s, k - 1);
    }
}

/// Moving down and then up returns to the starting position whenever the
/// next line is at least as long as the cursor's column, as with lines of
/// equal length.
pub proof fn law_down_then_up_returns(s: Seq<char>, c: int)
    requires
        0 <= c <= s.len(),
        line_end(s, c) < s.len(),
        c - line_start(s, c) <= line_end(s, line_end(s, c) + 1) - (line_end(s, c) + 1),
    ensures
        cursor_up(s, cursor_down(s, c)) == c,
{
    lemma_line_start_bounds(s, c);
    lemma_line_end_bounds(s, c);
    let ls = line_start(s, c);
    let e = line_end(s, c);
    let next = e + 1;
    lemma_line_end_bounds(s, next);
    let d = cursor_down(s, c);
    assert(d == next + (c - ls));
    lemma_line_start_is(s, next, d);
    assert forall|i: int| ls <= i < e implies s[i] != '\n' by {
        if i >= c {
        }
    }
    lemma_line_start_is(s, ls, e);
}

/// Moving up and then down returns to the starting position whenever the
/// previous line is at least as long as the cursor's column.
pub proof fn law_up_then_down_returns(s: Seq<char>, c: int)
    requires
        0 <= c <= s.len(),
        line_start(s, c) > 0,
        c - line_start(s, c) <= line_start(s, c) - 1 - line_start(s, line_start(s, c) - 1),
    ensures
        cursor_down(s, cursor_up(s, c)) == c,
{
    lemma_line_start_bounds(s, c);
    let ls = line_start(s, c);
    lemma_line_start_bounds(s, ls - 1);
    let ps = line_start(s, ls - 1);
    let u = cursor_up(s, c);
    assert(u == ps + (c - ls));
    lemma_line_start_is(s, ps, u);
    lemma_line_end_bounds(s, u);
    assert forall|i: int| u <= i < ls - 1 implies s[i] != '\n' by {}
    lemma_line_end_is(s, ls - 1, u);
    lemma_line_end_bounds(s, ls);
    assert forall|i: int| ls <= i < c implies s[i] != '\n' by {}
}

proof fn lemma_line_end_is(s: Seq<char>, e: int, k: int)
    requires
        0 <= k <= e < s.len(),
        s[e] == '\n',
        forall|i: int| k <= i < e ==> s[i] != '\n',
    ensures
        line_end(s, k) == e,
    decreases e - k,
{
    if k < e {
        lemma_line_end_is(s, e, k + 1);
    }
}

/// The start of the line holding `c`, with the position of the `'\n'` that
/// opens it, if any.
fn find_line_start(v: &Vec<char>, c: usize) -> (r: usize)
    requires
        c <= v@.len(),
    ensures
        r == line_start(v@, c as int),
{
    let mut k = c;
    while k > 0 && v[k - 1] != '\n'
        invariant
            k <= c <= v@.len(),
            line_start(v@, k as int) == line_start(v@, c as int),
        decreases k,
    {
        k = k - 1;
    }
    k
}

fn find_line_end(v: &Vec<char>, c: usize) -> (r: usize)
    requires
        c <= v@.len(),
    ensures
        r == line_end(v@, c as int),
{
    let mut k = c;
    while k < v.len() && v[k] != '\n'
        invariant
            c <= k <= v@.len(),
            line_end(v@, k as int) == line_end(v@, c as int),
        decreases v.len() - k,
    {
        k = k + 1;
    }
    k
}

/// The cursor one line up, as [`cursor_up`] describes it.
pub fn cursor_up_in(v: &Vec<char>, c: usize) -> (r: usize)
    requires
        c <= v@.len(),
    ensures
        r == cursor_up(v@, c as int),
        r <= v@.len(),
{
    proof {
        lemma_cursor_moves_stay_in_buffer(v@, c as int);
        lemma_line_start_bounds(v@, c as int);
    }
    let ls = find_line_start(v, c);
    if ls > 0 {
        let ps = find_line_start(v, ls - 1);
        proof {
            lemma_line_start_bounds(v@, ls - 1);
        }
        let col = c - ls;
        let prev_len = ls - 1 - ps;
        if col <= prev_len {
            ps + col
        } else {
            ps + prev_len
        }
    } else {
        c
    }
}

/// The cursor one line down, as [`cursor_down`] describes it.
pub fn cursor_down_in(v: &Vec<char>, c: usize) -> (r: usize)
    requires
        c <= v@.len(),
    ensures
        r == cursor_down(v@, c as int),
        r <= v@.len(),
{
    proof {
        lemma_cursor_moves_stay_in_buffer(v@, c as int);
        lemma_line_start_bounds(v@, c as int);
        lemma_line_end_bounds(v@, c as int);
    }
    let ls = find_line_start(v, c);
    let e = find_line_end(v, c);
    if e < v.len() {
        let next = e + 1;
        let ne = find_line_end(v, next);
        proof {
            lemma_line_end_bounds(v@, next as int);
        }
        let col = c - ls;
        let next_len = ne - next;
        if col <= next_len {
            next + col
        } else {
            next + next_len
        }
    } else {
        c
    }
}

/// Where the word before `k` starts, as [`word_start`] describes it.
pub fn word_start_in(v: &Vec<char>, k: usize) -> (r: usize)
    requires
        k <= v@.len(),
    ensures
        r == word_start(v@, k as int),
        r <= k,
{
    proof {
        lemma_word_start_bounds(v@, k as int);
    }
    let mut p = k;
    while p > 0 && is_whitespace(v[p - 1])
        invariant
            p <= k <= v@.len(),
            skip_spaces_back(v@, p as int) == skip_spaces_back(v@, k as int),
        decreases p,
    {
        p = p - 1;
    }
    let ghost q = p;
    while p > 0 && !is_whitespace(v[p - 1])
        invariant
            p <= q <= k <= v@.len(),
            q == skip_spaces_back(v@, k as int),
            skip_word_back(v@, p as int) == skip_word_back(v@, q as int),
        decreases p,
    {
        p = p - 1;
    }
    p
}

} // verus!
