//! Error-overlay text layout.
//!
//! While the host sits in the terminal error state, every frame paints the
//! virtual surface with a fixed "ERROR" label and then the error message,
//! one row per line of the message text, with no wrapping or truncation.
//! This module computes the rows: the message bytes are split at line
//! breaks, each line given as a half-open byte span into the original text,
//! with a carriage return before the break trimmed away.

use vstd::prelude::*;

verus! {

/// The first position at or after `i` that is past the end or holds a line
/// break.
pub open spec fn line_end(s: Seq<u8>, i: int) -> int
    decreases s.len() - i when 0 <= i <= s.len()
{
    if i < s.len() && s[i] != ('\n' as u8) {
        line_end(s, i + 1)
    } else {
        i
    }
}

/// A line's end with a trailing carriage return trimmed away.
pub open spec fn trimmed_end(s: Seq<u8>, i: int, j: int) -> int {
    if j > i && s[j - 1] == ('\r' as u8) {
        j - 1
    } else {
        j
    }
}

pub proof fn lemma_line_end_bounds(s: Seq<u8>, i: int)
    requires
        0 <= i <= s.len(),
    ensures
        i <= line_end(s, i) <= s.len(),
    decreases s.len() - i,
{
    if i < s.len() && s[i] != ('\n' as u8) {
        lemma_line_end_bounds(s, i + 1);
    }
}

/// The lines of `s[i..]`, as half-open byte spans into `s`: each line runs
/// to the next line break or the end of the text, a `\r` immediately before
/// the break is trimmed, and a final line break opens no further empty
/// line.
pub open spec fn line_spans(s: Seq<u8>, i: int) -> Seq<(int, int)>
    decreases s.len() - i when 0 <= i <= s.len()
    via line_spans_decreases
{
    if i >= s.len() {
        Seq::empty()
    } else {
        let j = line_end(s, i);
        let next = if j < s.len() {
            j + 1
        } else {
            j
        };
        seq![(i, trimmed_end(s, i, j))] + line_spans(s, next)
    }
}

#[via_fn]
proof fn line_spans_decreases(s: Seq<u8>, i: int) {
    if 0 <= i < s.len() {
        lemma_line_end_bounds(s, i);
    }
}

fn find_line_end(s: &[u8], i: usize) -> (j: usize)
    requires
        i <= s@.len(),
    ensures
        i <= j <= s@.len(),
        j == line_end(s@, i as int),
{
    let mut j: usize = i;
    while j < s.len() && s[j] != ('\n' as u8)
        invariant
            i <= j <= s@.len(),
            line_end(s@, i as int) == line_end(s@, j as int),
        decreases s@.len() - j,
    {
        assert(line_end(s@, j as int) == line_end(s@, j + 1));
        j = j + 1;
    }
    assert(line_end(s@, j as int) == j);
    j
}

/// Split a message into its overlay rows: the returned spans are exactly
/// the lines of the text, in order.
pub fn split_lines(s: &[u8]) -> (r: Vec<(usize, usize)>)
    ensures
        r@.len() == line_spans(s@, 0).len(),
        forall|k: int|
            0 <= k < r@.len() ==> (#[trigger] r@[k].0 as int, r@[k].1 as int) == line_spans(
                s@,
                0,
            )[k],
{
    let mut r: Vec<(usize, usize)> = Vec::new();
    let ghost mut done: Seq<(int, int)> = Seq::empty();
    let mut i: usize = 0;
    while i < s.len()
        invariant
            0 <= i <= s@.len(),
            line_spans(s@, 0) == done + line_spans(s@, i as int),
            done.len() == r@.len(),
            forall|k: int|
                0 <= k < r@.len() ==> (#[trigger] r@[k].0 as int, r@[k].1 as int) == done[k],
        decreases s@.len() - i,
    {
        let j = find_line_end(s, i);
        let e: usize = if j > i && s[j - 1] == ('\r' as u8) {
            j - 1
        } else {
            j
        };
        let next: usize = if j < s.len() {
            j + 1
        } else {
            j
        };
        assert(line_spans(s@, i as int) == seq![(i as int, e as int)] + line_spans(
            s@,
            next as int,
        ));
        r.push((i, e));
        proof {
            done = done + seq![(i as int, e as int)];
            assert(line_spans(s@, 0) == done + line_spans(s@, next as int));
        }
        i = next;
    }
    proof {
        assert(line_spans(s@, i as int) =~= Seq::<(int, int)>::empty());
        assert(done + Seq::<(int, int)>::empty() =~= done);
    }
    r
}

} // verus!
