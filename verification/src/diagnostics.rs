//! Analyzer-summary parsing.
//!
//! The static analyzer prints a summary line of the form
//! `<N> warning(s) / <M> error(s)`.  Validation is gated on those two
//! counts: any nonzero count fails validation, and an output with no
//! summary at all is treated as clean (the tool produced no actionable
//! summary).  The grammar below is the leftmost match of that pattern over
//! the raw output bytes: a maximal run of decimal digits, the word
//! `warning` with an optional plural `s`, a slash separator, a second
//! maximal digit run, and the word `error` (a plural `s` after it changes
//! nothing).

use vstd::prelude::*;

verus! {

/// An ASCII decimal digit.
pub open spec fn is_digit(b: u8) -> bool {
    ('0' as u8) <= b <= ('9' as u8)
}

/// The first position at or after `i` that is past the end or holds a
/// non-digit: the end of the digit run starting at `i`.
pub open spec fn digit_run_end(s: Seq<u8>, i: int) -> int
    decreases s.len() - i when 0 <= i <= s.len()
{
    if i < s.len() && is_digit(s[i]) {
        digit_run_end(s, i + 1)
    } else {
        i
    }
}

/// The value of the decimal digits `s[i..j]`.
pub open spec fn run_value(s: Seq<u8>, i: int, j: int) -> nat
    decreases j - i when i <= j
{
    if i < j {
        (run_value(s, i, j - 1) * 10 + (s[j - 1] - ('0' as u8))) as nat
    } else {
        0
    }
}

/// The bytes of `" warning"` stand at position `i`.
pub open spec fn warning_word_at(s: Seq<u8>, i: int) -> bool {
    &&& 0 <= i
    &&& i + 8 <= s.len()
    &&& s[i] == ' ' as u8
    &&& s[i + 1] == 'w' as u8
    &&& s[i + 2] == 'a' as u8
    &&& s[i + 3] == 'r' as u8
    &&& s[i + 4] == 'n' as u8
    &&& s[i + 5] == 'i' as u8
    &&& s[i + 6] == 'n' as u8
    &&& s[i + 7] == 'g' as u8
}

/// The bytes of `" / "` stand at position `i`.
pub open spec fn slash_sep_at(s: Seq<u8>, i: int) -> bool {
    &&& 0 <= i
    &&& i + 3 <= s.len()
    &&& s[i] == ' ' as u8
    &&& s[i + 1] == '/' as u8
    &&& s[i + 2] == ' ' as u8
}

/// The bytes of `" error"` stand at position `i`.
pub open spec fn error_word_at(s: Seq<u8>, i: int) -> bool {
    &&& 0 <= i
    &&& i + 6 <= s.len()
    &&& s[i] == ' ' as u8
    &&& s[i + 1] == 'e' as u8
    &&& s[i + 2] == 'r' as u8
    &&& s[i + 3] == 'r' as u8
    &&& s[i + 4] == 'o' as u8
    &&& s[i + 5] == 'r' as u8
}

/// The summary pattern matched at position `i`: a nonempty digit run, the
/// word `warning` with an optional `s`, `" / "`, a second nonempty digit
/// run, and the word `error`.  Returns the two counts on a match.
pub open spec fn summary_match_at(s: Seq<u8>, i: int) -> Option<(nat, nat)> {
    if !(0 <= i < s.len() && is_digit(s[i])) {
        None
    } else {
        let j = digit_run_end(s, i);
        if !warning_word_at(s, j) {
            None
        } else {
            let k = if j + 8 < s.len() && s[j + 8] == 's' as u8 {
                j + 9
            } else {
                j + 8
            };
            if !slash_sep_at(s, k) {
                None
            } else {
                let m = k + 3;
                if !(m < s.len() && is_digit(s[m])) {
                    None
                } else {
                    let n = digit_run_end(s, m);
                    if error_word_at(s, n) {
                        Some((run_value(s, i, j), run_value(s, m, n)))
                    } else {
                        None
                    }
                }
            }
        }
    }
}

/// The leftmost summary match at or after position `i`.
pub open spec fn summary_from(s: Seq<u8>, i: int) -> Option<(nat, nat)>
    decreases s.len() - i when 0 <= i <= s.len()
{
    if i >= s.len() {
        None
    } else {
        match summary_match_at(s, i) {
            Some(p) => Some(p),
            None => summary_from(s, i + 1),
        }
    }
}

/// The summary counts of an analyzer output: the leftmost match of the
/// summary pattern, or `None` when the output holds no summary line.
pub open spec fn summary_of(s: Seq<u8>) -> Option<(nat, nat)> {
    summary_from(s, 0)
}

/// A count clamped into `u32`.
pub open spec fn sat32(n: nat) -> u32 {
    if n > u32::MAX {
        u32::MAX
    } else {
        n as u32
    }
}

/// An analyzer output passes validation when it has no summary line, or a
/// summary with zero warnings and zero errors.
pub open spec fn analysis_clean(s: Seq<u8>) -> bool {
    match summary_of(s) {
        None => true,
        Some((w, e)) => w == 0 && e == 0,
    }
}

fn byte_is_digit(b: u8) -> (r: bool)
    ensures
        r == is_digit(b),
{
    ('0' as u8) <= b && b <= ('9' as u8)
}

fn find_digit_run_end(s: &[u8], i: usize) -> (j: usize)
    requires
        i <= s@.len(),
    ensures
        i <= j <= s@.len(),
        j == digit_run_end(s@, i as int),
{
    let mut j: usize = i;
    while j < s.len() && byte_is_digit(s[j])
        invariant
            i <= j <= s@.len(),
            digit_run_end(s@, i as int) == digit_run_end(s@, j as int),
        decreases s@.len() - j,
    {
        assert(digit_run_end(s@, j as int) == digit_run_end(s@, j + 1));
        j = j + 1;
    }
    assert(digit_run_end(s@, j as int) == j);
    j
}

fn saturating_run_value(s: &[u8], i: usize, j: usize) -> (v: u32)
    requires
        i <= j <= s@.len(),
        forall|k: int| i <= k < j ==> is_digit(s@[k]),
    ensures
        v == sat32(run_value(s@, i as int, j as int)),
{
    let cap: u64 = 0x1_0000_0000;
    let mut acc: u64 = 0;
    let mut k: usize = i;
    while k < j
        invariant
            cap == 0x1_0000_0000,
            i <= k <= j <= s@.len(),
            forall|t: int| i <= t < j ==> is_digit(s@[t]),
            run_value(s@, i as int, k as int) <= u32::MAX ==> acc == run_value(
                s@,
                i as int,
                k as int,
            ),
            run_value(s@, i as int, k as int) > u32::MAX ==> acc == cap,
            acc <= cap,
        decreases j - k,
    {
        assert(is_digit(s@[k as int]));
        let d: u64 = (s[k] - ('0' as u8)) as u64;
        assert(run_value(s@, i as int, k + 1) == run_value(s@, i as int, k as int) * 10 + (
        s@[k as int] - ('0' as u8)));
        if acc == cap {
            assert(run_value(s@, i as int, k + 1) > u32::MAX);
        } else {
            let t: u64 = acc * 10 + d;
            if t > 0xffff_ffff {
                acc = cap;
            } else {
                acc = t;
            }
        }
        k = k + 1;
    }
    if acc >= 0x1_0000_0000 {
        u32::MAX
    } else {
        acc as u32
    }
}

fn warning_word_at_exec(s: &[u8], i: usize) -> (r: bool)
    requires
        i <= s@.len(),
    ensures
        r == warning_word_at(s@, i as int),
{
    s.len() - i >= 8 && s[i] == (' ' as u8) && s[i + 1] == ('w' as u8) && s[i + 2] == ('a' as u8)
        && s[i + 3] == ('r' as u8) && s[i + 4] == ('n' as u8) && s[i + 5] == ('i' as u8) && s[i + 6]
        == ('n' as u8) && s[i + 7] == ('g' as u8)
}

fn slash_sep_at_exec(s: &[u8], i: usize) -> (r: bool)
    requires
        i <= s@.len(),
    ensures
        r == slash_sep_at(s@, i as int),
{
    s.len() - i >= 3 && s[i] == (' ' as u8) && s[i + 1] == ('/' as u8) && s[i + 2] == (' ' as u8)
}

fn error_word_at_exec(s: &[u8], i: usize) -> (r: bool)
    requires
        i <= s@.len(),
    ensures
        r == error_word_at(s@, i as int),
{
    s.len() - i >= 6 && s[i] == (' ' as u8) && s[i + 1] == ('e' as u8) && s[i + 2] == ('r' as u8)
        && s[i + 3] == ('r' as u8) && s[i + 4] == ('o' as u8) && s[i + 5] == ('r' as u8)
}

fn try_match(s: &[u8], i: usize) -> (r: Option<(u32, u32)>)
    requires
        i < s@.len(),
    ensures
        match summary_match_at(s@, i as int) {
            Some((w, e)) => r matches Some(p) && p.0 == sat32(w) && p.1 == sat32(e),
            None => r is None,
        },
{
    if !byte_is_digit(s[i]) {
        return None;
    }
    let j = find_digit_run_end(s, i);
    if !warning_word_at_exec(s, j) {
        return None;
    }
    let k: usize = if s.len() - j > 8 && s[j + 8] == ('s' as u8) {
        j + 9
    } else {
        j + 8
    };
    if !slash_sep_at_exec(s, k) {
        return None;
    }
    let m: usize = k + 3;
    if !(m < s.len() && byte_is_digit(s[m])) {
        return None;
    }
    let n = find_digit_run_end(s, m);
    if !error_word_at_exec(s, n) {
        return None;
    }
    proof {
        lemma_digit_run_all_digits(s@, i as int);
        lemma_digit_run_all_digits(s@, m as int);
    }
    let w = saturating_run_value(s, i, j);
    let e = saturating_run_value(s, m, n);
    Some((w, e))
}

proof fn lemma_digit_run_all_digits(s: Seq<u8>, i: int)
    requires
        0 <= i <= s.len(),
    ensures
        i <= digit_run_end(s, i) <= s.len(),
        forall|k: int| i <= k < digit_run_end(s, i) ==> is_digit(s[k]),
    decreases s.len() - i,
{
    if i < s.len() && is_digit(s[i]) {
        lemma_digit_run_all_digits(s, i + 1);
    }
}

/// Parse the analyzer summary: the leftmost match of the pattern, with each
/// count clamped into `u32`; `None` when the output holds no summary.
pub fn parse_summary(s: &[u8]) -> (r: Option<(u32, u32)>)
    ensures
        match summary_of(s@) {
            Some((w, e)) => r matches Some(p) && p.0 == sat32(w) && p.1 == sat32(e),
            None => r is None,
        },
{
    let mut i: usize = 0;
    while i < s.len()
        invariant
            0 <= i <= s@.len(),
            summary_from(s@, 0) == summary_from(s@, i as int),
        decreases s@.len() - i,
    {
        let r = try_match(s, i);
        if r.is_some() {
            assert(summary_from(s@, i as int) == Some(summary_match_at(s@, i as int)->Some_0));
            return r;
        }
        assert(summary_from(s@, i as int) == summary_from(s@, i + 1));
        i = i + 1;
    }
    assert(summary_from(s@, i as int) is None);
    None
}

/// Decide validation from raw analyzer output: clean when there is no
/// summary line, or when both counts are zero.
pub fn analysis_clean_exec(s: &[u8]) -> (b: bool)
    ensures
        b == analysis_clean(s@),
{
    match parse_summary(s) {
        None => true,
        Some((w, e)) => w == 0 && e == 0,
    }
}

} // verus!
