//! Glob-style matching of a whole text against a pattern.
//!
//! `*` stands for any run of characters, the empty one included, and `?`
//! for exactly one character. Every other character stands for itself.

use crate::text::str_chars;
use vstd::prelude::*;

verus! {

/// Whether `p[i..]` matches the whole of `t[j..]`.
pub open spec fn matches_from(p: Seq<char>, t: Seq<char>, i: int, j: int) -> bool
    decreases p.len() - i, t.len() - j,
{
    if i < 0 || j < 0 || i > p.len() || j > t.len() {
        false
    } else if i == p.len() {
        j == t.len()
    } else if p[i] == '*' {
        matches_from(p, t, i + 1, j) || (j < t.len() && matches_from(p, t, i, j + 1))
    } else {
        j < t.len() && (p[i] == '?' || p[i] == t[j]) && matches_from(p, t, i + 1, j + 1)
    }
}

/// Whether the pattern matches the whole text.
pub open spec fn glob_matches(pattern: Seq<char>, text: Seq<char>) -> bool {
    matches_from(pattern, text, 0, 0)
}

/// Whether `p[i..]` matches `t[k..]` for some `k` at or after `from`.
pub open spec fn matches_some_tail(p: Seq<char>, t: Seq<char>, i: int, from: int) -> bool {
    exists|k: int| from <= k <= t.len() && matches_from(p, t, i, k)
}

/// Whether `p[i]` is no `*` and agrees with the text `off` places on.
pub open spec fn agrees_at(p: Seq<char>, t: Seq<char>, i: int, off: int) -> bool {
    p[i] != '*' && (p[i] == '?' || p[i] == t[i + off])
}

/// Whether `p[a..b]` holds no `*` and agrees with `t[a + off..b + off]`
/// character by character.
pub open spec fn segment_matches(p: Seq<char>, t: Seq<char>, a: int, b: int, off: int) -> bool {
    &&& 0 <= a <= b <= p.len()
    &&& 0 <= a + off
    &&& b + off <= t.len()
    &&& forall|i: int| a <= i < b ==> #[trigger] agrees_at(p, t, i, off)
}

/// How far the search is from its end: the place of the last `*` taken up
/// counts first.
pub open spec fn star_rank(p: Seq<char>, star: Option<usize>) -> int {
    match star {
        None => p.len() as int + 1,
        Some(si) => p.len() as int - si as int,
    }
}

/// Whether every character of `p[i..]` is a `*`.
pub open spec fn only_stars(p: Seq<char>, i: int) -> bool {
    forall|k: int| i <= k < p.len() ==> p[k] == '*'
}

/// A `*` takes up any stretch of text before the rest of the pattern.
proof fn lemma_star_absorbs(p: Seq<char>, t: Seq<char>, i: int, j: int, k: int)
    requires
        0 <= i < p.len(),
        p[i] == '*',
        0 <= j <= k <= t.len(),
        matches_from(p, t, i + 1, k),
    ensures
        matches_from(p, t, i, j),
    decreases k - j,
{
    if j < k {
        lemma_star_absorbs(p, t, i, j + 1, k);
    }
}

/// Where a `*` matches, the rest of the pattern matches some later tail.
proof fn lemma_star_unfolds(p: Seq<char>, t: Seq<char>, i: int, j: int)
    requires
        0 <= i < p.len(),
        p[i] == '*',
        0 <= j <= t.len(),
        matches_from(p, t, i, j),
    ensures
        matches_some_tail(p, t, i + 1, j),
    decreases t.len() - j,
{
    if matches_from(p, t, i + 1, j) {
    } else {
        lemma_star_unfolds(p, t, i, j + 1);
        let i1 = i + 1;
        let k = choose|k: int| j + 1 <= k <= t.len() && matches_from(p, t, i1, k);
        assert(j <= k <= t.len() && matches_from(p, t, i1, k));
    }
}

/// A stretch of pattern without `*` that agrees with the text can be
/// stepped over.
proof fn lemma_segment_step(p: Seq<char>, t: Seq<char>, a: int, b: int, off: int)
    requires
        segment_matches(p, t, a, b, off),
    ensures
        matches_from(p, t, a, a + off) == matches_from(p, t, b, b + off),
    decreases b - a,
{
    if a < b {
        assert(agrees_at(p, t, a, off));
        lemma_segment_step(p, t, a + 1, b, off);
    }
}

/// A stretch of pattern without `*` takes up exactly its own length of
/// text.
proof fn lemma_segment_consumes(p: Seq<char>, t: Seq<char>, a: int, b: int, k: int)
    requires
        0 <= a <= b <= p.len(),
        forall|d: int| a <= d < b ==> p[d] != '*',
        0 <= k <= t.len(),
        matches_from(p, t, a, k),
    ensures
        k + (b - a) <= t.len(),
        matches_from(p, t, b, k + (b - a)),
    decreases b - a,
{
    if a < b {
        lemma_segment_consumes(p, t, a + 1, b, k + 1);
    }
}

/// With the text used up, what is left of the pattern matches exactly when
/// it holds nothing but `*`.
proof fn lemma_end_of_text(p: Seq<char>, t: Seq<char>, i: int)
    requires
        0 <= i <= p.len(),
    ensures
        matches_from(p, t, i, t.len() as int) == only_stars(p, i),
    decreases p.len() - i,
{
    if i < p.len() {
        lemma_end_of_text(p, t, i + 1);
        if p[i] == '*' {
            assert(only_stars(p, i + 1) ==> only_stars(p, i));
        }
    }
}

/// Whether `pattern` matches the whole of `text`, character vectors given.
pub fn wildcard_match_chars(p: &Vec<char>, t: &Vec<char>) -> (matched: bool)
    ensures
        matched == glob_matches(p@, t@),
{
    let mut p_idx: usize = 0;
    let mut t_idx: usize = 0;
    let mut star: Option<usize> = None;
    let mut match_idx: usize = 0;
    while t_idx < t.len()
        invariant
            p_idx <= p.len(),
            t_idx <= t.len(),
            match_idx <= t_idx,
            star is None ==> glob_matches(p@, t@) == matches_from(p@, t@, p_idx as int, t_idx as int),
            star matches Some(si) ==> {
                &&& si < p_idx
                &&& p@[si as int] == '*'
                &&& glob_matches(p@, t@) == matches_some_tail(p@, t@, si + 1, match_idx as int)
                &&& segment_matches(p@, t@, si + 1, p_idx as int, match_idx - (si + 1))
                &&& p_idx - (si + 1) == t_idx - match_idx
            },
        decreases star_rank(p@, star), t.len() - match_idx, t.len() - t_idx,
    {
        if p_idx < p.len() && p[p_idx] == '*' {
            proof {
                let pi = p_idx as int;
                let next_p = pi + 1;
                let ti = t_idx as int;
                match star {
                    None => {
                        if matches_from(p@, t@, pi, ti) {
                            lemma_star_unfolds(p@, t@, pi, ti);
                        }
                    },
                    Some(si) => {
                        let s1 = si + 1;
                        let mi = match_idx as int;
                        lemma_segment_step(p@, t@, s1, pi, mi - s1);
                        if matches_some_tail(p@, t@, s1, mi) {
                            let k = choose|k: int|
                                mi <= k <= t@.len() && matches_from(p@, t@, s1, k);
                            assert forall|d: int| s1 <= d < pi implies p@[d] != '*' by {
                                assert(agrees_at(p@, t@, d, mi - s1));
                            }
                            lemma_segment_consumes(p@, t@, s1, pi, k);
                            lemma_star_unfolds(p@, t@, pi, k + (pi - s1));
                            let k2 = choose|k2: int|
                                k + (pi - s1) <= k2 <= t@.len() && matches_from(p@, t@, next_p, k2);
                            assert(ti <= k2 <= t@.len() && matches_from(p@, t@, next_p, k2));
                        }
                    },
                }
                if matches_some_tail(p@, t@, next_p, ti) {
                    let k = choose|k: int| ti <= k <= t@.len() && matches_from(p@, t@, next_p, k);
                    lemma_star_absorbs(p@, t@, pi, ti, k);
                    if let Some(si) = star {
                        let s1 = si + 1;
                        let mi = match_idx as int;
                        assert(mi <= mi <= t@.len() && matches_from(p@, t@, s1, mi));
                    }
                }
                assert(glob_matches(p@, t@) == matches_some_tail(p@, t@, next_p, ti));
            }
            star = Some(p_idx);
            p_idx += 1;
            match_idx = t_idx;
        } else if p_idx < p.len() && (p[p_idx] == '?' || p[p_idx] == t[t_idx]) {
            proof {
                if let Some(si) = star {
                    assert(agrees_at(p@, t@, p_idx as int, match_idx - (si + 1)));
                }
            }
            p_idx += 1;
            t_idx += 1;
        } else {
            match star {
                None => {
                    return false;
                },
                Some(si) => {
                    proof {
                        let s1 = si + 1;
                        let mi = match_idx as int;
                        let m1 = mi + 1;
                        lemma_segment_step(p@, t@, s1, p_idx as int, mi - s1);
                        assert(!matches_from(p@, t@, p_idx as int, t_idx as int));
                        assert(!matches_from(p@, t@, s1, mi));
                        if matches_some_tail(p@, t@, s1, mi) {
                            let k = choose|k: int|
                                mi <= k <= t@.len() && matches_from(p@, t@, s1, k);
                            assert(m1 <= k <= t@.len() && matches_from(p@, t@, s1, k));
                        }
                        if matches_some_tail(p@, t@, s1, m1) {
                            let k = choose|k: int|
                                m1 <= k <= t@.len() && matches_from(p@, t@, s1, k);
                            assert(mi <= k <= t@.len() && matches_from(p@, t@, s1, k));
                        }
                    }
                    p_idx = si + 1;
                    match_idx += 1;
                    t_idx = match_idx;
                },
            }
        }
    }
    proof {
        let pi = p_idx as int;
        let tl = t@.len() as int;
        if let Some(si) = star {
            let s1 = si + 1;
            let mi = match_idx as int;
            lemma_segment_step(p@, t@, s1, pi, mi - s1);
            if matches_some_tail(p@, t@, s1, mi) {
                let k = choose|k: int| mi <= k <= t@.len() && matches_from(p@, t@, s1, k);
                assert forall|d: int| s1 <= d < pi implies p@[d] != '*' by {
                    assert(agrees_at(p@, t@, d, mi - s1));
                }
                lemma_segment_consumes(p@, t@, s1, pi, k);
                assert(k == mi);
            }
            if matches_from(p@, t@, pi, tl) {
                assert(mi <= mi <= t@.len() && matches_from(p@, t@, s1, mi));
            }
        }
        assert(glob_matches(p@, t@) == matches_from(p@, t@, pi, tl));
        lemma_end_of_text(p@, t@, pi);
    }
    while p_idx < p.len() && p[p_idx] == '*'
        invariant
            p_idx <= p.len(),
            glob_matches(p@, t@) == only_stars(p@, p_idx as int),
        decreases p.len() - p_idx,
    {
        assert(only_stars(p@, p_idx as int) == only_stars(p@, p_idx + 1));
        p_idx += 1;
    }
    p_idx == p.len()
}

/// Whether `pattern` matches the whole of `text`.
pub fn wildcard_match(pattern: &str, text: &str) -> (matched: bool)
    ensures
        matched == glob_matches(pattern@, text@),
{
    let p = str_chars(pattern);
    let t = str_chars(text);
    wildcard_match_chars(&p, &t)
}

/// A pattern made of one `*` matches every text, the empty one included.
pub proof fn lemma_star_matches_everything(text: Seq<char>)
    ensures
        glob_matches(seq!['*'], text),
{
    let p = seq!['*'];
    assert(matches_from(p, text, 1, text.len() as int));
    lemma_star_absorbs(p, text, 0, 0, text.len() as int);
}

/// A pattern without `*` matches only texts of its own length: the match
/// is anchored at both ends.
pub proof fn lemma_match_without_star_keeps_length(pattern: Seq<char>, text: Seq<char>)
    requires
        forall|i: int| 0 <= i < pattern.len() ==> pattern[i] != '*',
        glob_matches(pattern, text),
    ensures
        text.len() == pattern.len(),
        forall|i: int| 0 <= i < pattern.len() ==> pattern[i] == '?' || pattern[i] == text[i],
{
    lemma_segment_consumes(pattern, text, 0, pattern.len() as int, 0);
    assert forall|i: int| 0 <= i < pattern.len() implies pattern[i] == '?' || pattern[i]
        == text[i] by {
        lemma_segment_consumes(pattern, text, 0, i, 0);
    }
}

/// A text without `*` matches itself when read as a pattern.
pub proof fn lemma_plain_text_matches_itself(text: Seq<char>)
    requires
        forall|i: int| 0 <= i < text.len() ==> text[i] != '*',
    ensures
        glob_matches(text, text),
{
    assert(segment_matches(text, text, 0, text.len() as int, 0));
    lemma_segment_step(text, text, 0, text.len() as int, 0);
}

} // verus!
