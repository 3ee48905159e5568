//! Character-sequence utilities shared by the rest of the library.
//!
//! Every string that the library inspects is handled as a sequence of
//! characters (`Seq<char>` in contracts, `Vec<char>` at run time).

use vstd::prelude::*;

verus! {

/// `String::push`: appends one character to the end of the string.
#[verifier::external_body]
fn push_char(s: &mut String, c: char)
    ensures
        final(s)@ == old(s)@.push(c),
{
    s.push(c)
}

/// The characters of a string slice, in order.
pub fn str_chars(s: &str) -> (out: Vec<char>)
    ensures
        out@ == s@,
{
    let mut out: Vec<char> = Vec::new();
    for c in it: s.chars()
        invariant
            it.seq() == s@,
            out@ == s@.take(it.index() as int),
    {
        out.push(c);
    }
    out
}

/// The string made of the given characters, in order.
pub fn chars_to_string(v: &Vec<char>) -> (out: String)
    ensures
        out@ == v@,
{
    let mut out = String::new();
    let mut i: usize = 0;
    while i < v.len()
        invariant
            i <= v.len(),
            out@ == v@.take(i as int),
        decreases v.len() - i,
    {
        push_char(&mut out, v[i]);
        i += 1;
    }
    out
}

/// A copy of the characters `v[from..to]`.
pub fn slice_chars(v: &Vec<char>, from: usize, to: usize) -> (out: Vec<char>)
    requires
        from <= to <= v.len(),
    ensures
        out@ == v@.subrange(from as int, to as int),
{
    let mut out: Vec<char> = Vec::new();
    let mut i: usize = from;
    while i < to
        invariant
            from <= i <= to <= v.len(),
            out@ == v@.subrange(from as int, i as int),
        decreases to - i,
    {
        out.push(v[i]);
        i += 1;
    }
    out
}

/// Appends all of `tail` to `out`.
pub fn extend_chars(out: &mut Vec<char>, tail: &Vec<char>)
    ensures
        final(out)@ == old(out)@ + tail@,
{
    let mut i: usize = 0;
    while i < tail.len()
        invariant
            i <= tail.len(),
            out@ == old(out)@ + tail@.take(i as int),
        decreases tail.len() - i,
    {
        out.push(tail[i]);
        i += 1;
    }
}

/// Appends the characters of a string slice to `out`.
pub fn extend_str(out: &mut Vec<char>, tail: &str)
    ensures
        final(out)@ == old(out)@ + tail@,
{
    let chars = str_chars(tail);
    extend_chars(out, &chars);
}

/// Whether two character vectors hold the same sequence.
pub fn chars_eq(a: &Vec<char>, b: &Vec<char>) -> (same: bool)
    ensures
        same == (a@ == b@),
{
    if a.len() != b.len() {
        return false;
    }
    let mut i: usize = 0;
    while i < a.len()
        invariant
            i <= a.len(),
            a.len() == b.len(),
            a@.take(i as int) == b@.take(i as int),
        decreases a.len() - i,
    {
        if a[i] != b[i] {
            return false;
        }
        assert(a@.take(i + 1) == a@.take(i as int).push(a@[i as int]));
        assert(b@.take(i + 1) == b@.take(i as int).push(b@[i as int]));
        i += 1;
    }
    assert(a@ == a@.take(a.len() as int));
    assert(b@ == b@.take(b.len() as int));
    true
}

/// Whether the characters equal those of the string slice.
pub fn chars_eq_str(a: &Vec<char>, b: &str) -> (same: bool)
    ensures
        same == (a@ == b@),
{
    let other = str_chars(b);
    chars_eq(a, &other)
}

/// The characters with the Unicode property `White_Space`.
pub open spec fn is_whitespace_char(c: char) -> bool {
    let n = c as u32;
    ||| 0x09 <= n <= 0x0D
    ||| n == 0x20
    ||| n == 0x85
    ||| n == 0xA0
    ||| n == 0x1680
    ||| 0x2000 <= n <= 0x200A
    ||| n == 0x2028
    ||| n == 0x2029
    ||| n == 0x202F
    ||| n == 0x205F
    ||| n == 0x3000
}

pub fn is_whitespace(c: char) -> (b: bool)
    ensures
        b == is_whitespace_char(c),
{
    let n: u32 = c as u32;
    (0x09 <= n && n <= 0x0D) || n == 0x20 || n == 0x85 || n == 0xA0 || n == 0x1680 || (0x2000 <= n
        && n <= 0x200A) || n == 0x2028 || n == 0x2029 || n == 0x202F || n == 0x205F || n == 0x3000
}

/// An ASCII upper-case letter becomes its lower-case form; every other
/// character stays as it is.
pub open spec fn ascii_lower_char(c: char) -> char {
    if 'A' <= c <= 'Z' {
        ((c as u8) + 32) as char
    } else {
        c
    }
}

pub fn ascii_lower(c: char) -> (out: char)
    ensures
        out == ascii_lower_char(c),
{
    if 'A' <= c && c <= 'Z' {
        ((c as u8) + 32) as char
    } else {
        c
    }
}

/// An ASCII letter or an ASCII digit.
pub open spec fn is_ascii_alphanumeric_char(c: char) -> bool {
    ('a' <= c <= 'z') || ('A' <= c <= 'Z') || ('0' <= c <= '9')
}

pub fn is_ascii_alphanumeric(c: char) -> (b: bool)
    ensures
        b == is_ascii_alphanumeric_char(c),
{
    ('a' <= c && c <= 'z') || ('A' <= c && c <= 'Z') || ('0' <= c && c <= '9')
}

/// The sequence with every character mapped through `ascii_lower_char`.
pub open spec fn spec_ascii_lowercase(s: Seq<char>) -> Seq<char> {
    Seq::new(s.len(), |i: int| ascii_lower_char(s[i]))
}

pub fn ascii_lowercase(s: &Vec<char>) -> (out: Vec<char>)
    ensures
        out@ == spec_ascii_lowercase(s@),
{
    let mut out: Vec<char> = Vec::new();
    let mut i: usize = 0;
    while i < s.len()
        invariant
            i <= s.len(),
            out@.len() == i,
            forall|k: int| 0 <= k < i ==> out@[k] == ascii_lower_char(s@[k]),
        decreases s.len() - i,
    {
        out.push(ascii_lower(s[i]));
        i += 1;
    }
    assert(out@ =~= spec_ascii_lowercase(s@));
    out
}

/// The first index at or after `from` that holds no white space, or the
/// length where there is none.
pub open spec fn first_non_ws(s: Seq<char>, from: int) -> int
    decreases s.len() - from,
{
    if from < 0 || from >= s.len() {
        s.len() as int
    } else if is_whitespace_char(s[from]) {
        first_non_ws(s, from + 1)
    } else {
        from
    }
}

/// The end of the last character in `s[start..upto]` that is no white
/// space, or `start` where there is none.
pub open spec fn last_non_ws_end(s: Seq<char>, start: int, upto: int) -> int
    decreases upto,
{
    if upto <= start || upto <= 0 {
        start
    } else if is_whitespace_char(s[upto - 1]) {
        last_non_ws_end(s, start, upto - 1)
    } else {
        upto
    }
}

/// Where the trimmed part of `s` begins.
pub open spec fn trim_begin(s: Seq<char>) -> int {
    first_non_ws(s, 0)
}

/// Where the trimmed part of `s` ends.
pub open spec fn trim_end(s: Seq<char>) -> int {
    last_non_ws_end(s, trim_begin(s), s.len() as int)
}

/// `s` without its leading and trailing white space.
pub open spec fn spec_trim(s: Seq<char>) -> Seq<char> {
    s.subrange(trim_begin(s), trim_end(s))
}

/// `s` without its leading white space.
pub open spec fn spec_trim_start(s: Seq<char>) -> Seq<char> {
    s.subrange(trim_begin(s), s.len() as int)
}

/// `s` without its trailing white space.
pub open spec fn spec_trim_end(s: Seq<char>) -> Seq<char> {
    s.subrange(0, last_non_ws_end(s, 0, s.len() as int))
}

/// Index of the first character at or after `from` that is no white space.
pub fn skip_whitespace(s: &Vec<char>, from: usize) -> (at: usize)
    requires
        from <= s.len(),
    ensures
        at == first_non_ws(s@, from as int),
        from <= at <= s.len(),
{
    let mut i: usize = from;
    while i < s.len() && is_whitespace(s[i])
        invariant
            from <= i <= s.len(),
            first_non_ws(s@, from as int) == first_non_ws(s@, i as int),
        decreases s.len() - i,
    {
        i += 1;
    }
    i
}

/// End of the last character of `s[start..upto]` that is no white space.
pub fn skip_whitespace_back(s: &Vec<char>, start: usize, upto: usize) -> (end: usize)
    requires
        start <= upto <= s.len(),
    ensures
        end == last_non_ws_end(s@, start as int, upto as int),
        start <= end <= upto,
{
    let mut j: usize = upto;
    while j > start && is_whitespace(s[j - 1])
        invariant
            start <= j <= upto <= s.len(),
            last_non_ws_end(s@, start as int, upto as int) == last_non_ws_end(
                s@,
                start as int,
                j as int,
            ),
        decreases j,
    {
        j -= 1;
    }
    j
}

/// The characters without leading and trailing white space.
pub fn trim(s: &Vec<char>) -> (out: Vec<char>)
    ensures
        out@ == spec_trim(s@),
{
    let a = skip_whitespace(s, 0);
    let b = skip_whitespace_back(s, a, s.len());
    slice_chars(s, a, b)
}

/// The characters without leading white space.
pub fn trim_start(s: &Vec<char>) -> (out: Vec<char>)
    ensures
        out@ == spec_trim_start(s@),
{
    let a = skip_whitespace(s, 0);
    slice_chars(s, a, s.len())
}

/// The characters without trailing white space.
pub fn trim_end_chars(s: &Vec<char>) -> (out: Vec<char>)
    ensures
        out@ == spec_trim_end(s@),
{
    let b = skip_whitespace_back(s, 0, s.len());
    slice_chars(s, 0, b)
}

/// Whether `s` holds `part` at index `at`.
pub open spec fn occurs_at(s: Seq<char>, part: Seq<char>, at: int) -> bool {
    &&& 0 <= at
    &&& at + part.len() <= s.len()
    &&& s.subrange(at, at + part.len()) == part
}

/// Whether `s` begins with `prefix`.
pub open spec fn spec_starts_with(s: Seq<char>, prefix: Seq<char>) -> bool {
    occurs_at(s, prefix, 0)
}

/// Whether `s` ends with `suffix`.
pub open spec fn spec_ends_with(s: Seq<char>, suffix: Seq<char>) -> bool {
    occurs_at(s, suffix, s.len() - suffix.len())
}

/// Whether `part` occurs somewhere in `s`.
pub open spec fn spec_contains(s: Seq<char>, part: Seq<char>) -> bool {
    exists|at: int| occurs_at(s, part, at)
}

pub fn matches_at(s: &Vec<char>, part: &Vec<char>, at: usize) -> (b: bool)
    ensures
        b == occurs_at(s@, part@, at as int),
{
    if at > s.len() || part.len() > s.len() - at {
        return false;
    }
    let mut i: usize = 0;
    while i < part.len()
        invariant
            i <= part.len(),
            at + part.len() <= s.len(),
            s@.subrange(at as int, at + i) == part@.take(i as int),
        decreases part.len() - i,
    {
        if s[at + i] != part[i] {
            assert(s@.subrange(at as int, at + part.len())[i as int] == s@[at + i]);
            return false;
        }
        assert(s@.subrange(at as int, at + i + 1) == s@.subrange(at as int, at + i).push(
            s@[at + i],
        ));
        assert(part@.take(i + 1) == part@.take(i as int).push(part@[i as int]));
        i += 1;
    }
    assert(part@.take(part.len() as int) == part@);
    true
}

pub fn starts_with(s: &Vec<char>, prefix: &Vec<char>) -> (b: bool)
    ensures
        b == spec_starts_with(s@, prefix@),
{
    matches_at(s, prefix, 0)
}

pub fn ends_with(s: &Vec<char>, suffix: &Vec<char>) -> (b: bool)
    ensures
        b == spec_ends_with(s@, suffix@),
{
    if suffix.len() > s.len() {
        return false;
    }
    matches_at(s, suffix, s.len() - suffix.len())
}

pub fn contains(s: &Vec<char>, part: &Vec<char>) -> (b: bool)
    ensures
        b == spec_contains(s@, part@),
{
    if part.len() > s.len() {
        return false;
    }
    let last: usize = s.len() - part.len();
    let mut at: usize = 0;
    loop
        invariant
            at <= last,
            last == s.len() - part.len(),
            forall|k: int| 0 <= k < at ==> !occurs_at(s@, part@, k),
        decreases last - at,
    {
        if matches_at(s, part, at) {
            return true;
        }
        if at == last {
            return false;
        }
        at += 1;
    }
}

pub fn starts_with_str(s: &Vec<char>, prefix: &str) -> (b: bool)
    ensures
        b == spec_starts_with(s@, prefix@),
{
    let p = str_chars(prefix);
    starts_with(s, &p)
}

pub fn ends_with_str(s: &Vec<char>, suffix: &str) -> (b: bool)
    ensures
        b == spec_ends_with(s@, suffix@),
{
    let p = str_chars(suffix);
    ends_with(s, &p)
}

pub fn contains_str(s: &Vec<char>, part: &str) -> (b: bool)
    ensures
        b == spec_contains(s@, part@),
{
    let p = str_chars(part);
    contains(s, &p)
}

/// The first index at or after `from` that holds `c`, or the length where
/// none does.
pub open spec fn index_of_from(s: Seq<char>, c: char, from: int) -> int
    decreases s.len() - from,
{
    if from < 0 || from >= s.len() {
        s.len() as int
    } else if s[from] == c {
        from
    } else {
        index_of_from(s, c, from + 1)
    }
}

pub proof fn lemma_index_of_from(s: Seq<char>, c: char, from: int)
    requires
        0 <= from <= s.len(),
    ensures
        from <= index_of_from(s, c, from) <= s.len(),
        forall|k: int| from <= k < index_of_from(s, c, from) ==> s[k] != c,
        index_of_from(s, c, from) < s.len() ==> s[index_of_from(s, c, from)] == c,
    decreases s.len() - from,
{
    if from < s.len() && s[from] != c {
        lemma_index_of_from(s, c, from + 1);
    }
}

pub fn find_char_from(s: &Vec<char>, c: char, from: usize) -> (at: usize)
    requires
        from <= s.len(),
    ensures
        at == index_of_from(s@, c, from as int),
        from <= at <= s.len(),
{
    let mut i: usize = from;
    while i < s.len() && s[i] != c
        invariant
            from <= i <= s.len(),
            index_of_from(s@, c, from as int) == index_of_from(s@, c, i as int),
        decreases s.len() - i,
    {
        i += 1;
    }
    i
}

/// Whether `c` occurs in `s`.
pub open spec fn has_char(s: Seq<char>, c: char) -> bool {
    index_of_from(s, c, 0) < s.len()
}

pub fn contains_char(s: &Vec<char>, c: char) -> (b: bool)
    ensures
        b == has_char(s@, c),
{
    find_char_from(s, c, 0) < s.len()
}

/// The views of a sequence of strings.
pub open spec fn string_views(v: Seq<String>) -> Seq<Seq<char>> {
    Seq::new(v.len(), |i: int| v[i]@)
}

/// The views of a sequence of character vectors.
pub open spec fn row_views(v: Seq<Vec<char>>) -> Seq<Seq<char>> {
    Seq::new(v.len(), |i: int| v[i]@)
}

/// The view of an optional string.
pub open spec fn opt_view(s: Option<String>) -> Option<Seq<char>> {
    match s {
        Some(s) => Some(s@),
        None => None,
    }
}

/// The views of an optional list of strings.
pub open spec fn opt_string_views(v: Option<Vec<String>>) -> Option<Seq<Seq<char>>> {
    match v {
        Some(v) => Some(string_views(v@)),
        None => None,
    }
}

pub proof fn lemma_row_views_push(v: Seq<Vec<char>>, row: Vec<char>)
    ensures
        row_views(v.push(row)) == row_views(v).push(row@),
{
    assert(row_views(v.push(row)) =~= row_views(v).push(row@));
}

pub proof fn lemma_string_views_push(v: Seq<String>, s: String)
    ensures
        string_views(v.push(s)) == string_views(v).push(s@),
{
    assert(string_views(v.push(s)) =~= string_views(v).push(s@));
}

/// A copy of a string.
pub fn clone_string(s: &String) -> (out: String)
    ensures
        out@ == s@,
{
    s.clone()
}

/// A copy of a list of strings.
pub fn clone_strings(v: &Vec<String>) -> (out: Vec<String>)
    ensures
        string_views(out@) == string_views(v@),
{
    let mut out: Vec<String> = Vec::new();
    let mut i: usize = 0;
    while i < v.len()
        invariant
            i <= v.len(),
            string_views(out@) == string_views(v@.take(i as int)),
        decreases v.len() - i,
    {
        let ghost before = out@;
        let item = clone_string(&v[i]);
        out.push(item);
        proof {
            lemma_string_views_push(before, item);
            assert(string_views(v@.take(i + 1)) =~= string_views(v@.take(i as int)).push(v@[i as int]@));
        }
        i += 1;
    }
    assert(v@.take(v.len() as int) == v@);
    out
}

/// A copy of an optional string.
pub fn clone_opt_string(s: &Option<String>) -> (out: Option<String>)
    ensures
        opt_view(out) == opt_view(*s),
{
    match s {
        Some(s) => Some(clone_string(s)),
        None => None,
    }
}

/// A copy of an optional list of strings.
pub fn clone_opt_strings(v: &Option<Vec<String>>) -> (out: Option<Vec<String>>)
    ensures
        opt_string_views(out) == opt_string_views(*v),
{
    match v {
        Some(v) => Some(clone_strings(v)),
        None => None,
    }
}

/// A line without the carriage return that may end it.
pub open spec fn strip_cr(line: Seq<char>) -> Seq<char> {
    if line.len() > 0 && line.last() == '\r' {
        line.drop_last()
    } else {
        line
    }
}

/// The lines of `s[from..]`. A line ends at a line feed, or at a carriage
/// return followed by a line feed; neither belongs to the line. The last
/// line needs no line ending, and an empty last line does not count.
pub open spec fn lines_from(s: Seq<char>, from: int) -> Seq<Seq<char>>
    decreases s.len() - from,
{
    if from < 0 || from >= s.len() {
        Seq::empty()
    } else {
        let nl = index_of_from(s, '\n', from);
        if nl >= s.len() {
            seq![s.subrange(from, s.len() as int)]
        } else if nl < from {
            Seq::empty()
        } else {
            seq![strip_cr(s.subrange(from, nl))] + lines_from(s, nl + 1)
        }
    }
}

/// The lines of `s`.
pub open spec fn spec_lines(s: Seq<char>) -> Seq<Seq<char>> {
    lines_from(s, 0)
}

pub fn lines(s: &Vec<char>) -> (out: Vec<Vec<char>>)
    ensures
        row_views(out@) == spec_lines(s@),
{
    let mut out: Vec<Vec<char>> = Vec::new();
    let mut pos: usize = 0;
    assert(row_views(out@) + lines_from(s@, 0) =~= spec_lines(s@));
    while pos < s.len()
        invariant
            pos <= s.len(),
            row_views(out@) + lines_from(s@, pos as int) == spec_lines(s@),
        decreases s.len() - pos,
    {
        let ghost before = out@;
        let nl = find_char_from(s, '\n', pos);
        if nl >= s.len() {
            let row = slice_chars(s, pos, s.len());
            out.push(row);
            proof {
                lemma_row_views_push(before, row);
                assert(lines_from(s@, s@.len() as int) =~= Seq::<Seq<char>>::empty());
                assert(row_views(out@) + lines_from(s@, s@.len() as int) =~= row_views(before)
                    + lines_from(s@, pos as int));
            }
            pos = s.len();
        } else {
            let mut end: usize = nl;
            if end > pos && s[end - 1] == '\r' {
                end -= 1;
            }
            let row = slice_chars(s, pos, end);
            out.push(row);
            proof {
                lemma_row_views_push(before, row);
                let whole = s@.subrange(pos as int, nl as int);
                assert(row@ =~= strip_cr(whole));
                assert(row_views(out@) + lines_from(s@, nl + 1) =~= row_views(before)
                    + lines_from(s@, pos as int));
            }
            pos = nl + 1;
        }
    }
    assert(lines_from(s@, pos as int) =~= Seq::<Seq<char>>::empty());
    assert(row_views(out@) + Seq::<Seq<char>>::empty() =~= row_views(out@));
    out
}

/// The pieces of `s[from..]` between occurrences of `c`. There is always
/// at least one piece.
pub open spec fn split_from(s: Seq<char>, c: char, from: int) -> Seq<Seq<char>>
    decreases s.len() - from,
{
    if from < 0 || from > s.len() {
        Seq::empty()
    } else {
        let at = index_of_from(s, c, from);
        if at >= s.len() {
            seq![s.subrange(from, s.len() as int)]
        } else if at < from {
            Seq::empty()
        } else {
            seq![s.subrange(from, at)] + split_from(s, c, at + 1)
        }
    }
}

/// The pieces of `s` between occurrences of `c`.
pub open spec fn spec_split(s: Seq<char>, c: char) -> Seq<Seq<char>> {
    split_from(s, c, 0)
}

pub fn split(s: &Vec<char>, c: char) -> (out: Vec<Vec<char>>)
    ensures
        row_views(out@) == spec_split(s@, c),
        out@.len() >= 1,
{
    let mut out: Vec<Vec<char>> = Vec::new();
    let mut pos: usize = 0;
    assert(row_views(out@) + split_from(s@, c, 0) =~= spec_split(s@, c));
    loop
        invariant
            pos <= s.len(),
            row_views(out@) + split_from(s@, c, pos as int) == spec_split(s@, c),
        decreases s.len() - pos,
    {
        let ghost before = out@;
        let at = find_char_from(s, c, pos);
        if at >= s.len() {
            let row = slice_chars(s, pos, s.len());
            out.push(row);
            proof {
                lemma_row_views_push(before, row);
                assert(row_views(out@) =~= row_views(before) + split_from(s@, c, pos as int));
            }
            return out;
        }
        let row = slice_chars(s, pos, at);
        out.push(row);
        proof {
            lemma_row_views_push(before, row);
            assert(row_views(out@) + split_from(s@, c, at + 1) =~= row_views(before) + split_from(
                s@,
                c,
                pos as int,
            ));
        }
        pos = at + 1;
    }
}

/// The parts in order, with `sep` between each two neighbours.
pub open spec fn spec_join(parts: Seq<Seq<char>>, sep: Seq<char>) -> Seq<char>
    decreases parts.len(),
{
    if parts.len() == 0 {
        Seq::empty()
    } else if parts.len() == 1 {
        parts[0]
    } else {
        spec_join(parts.drop_last(), sep) + sep + parts.last()
    }
}

pub fn join_rows(rows: &Vec<Vec<char>>, sep: &Vec<char>) -> (out: Vec<char>)
    ensures
        out@ == spec_join(row_views(rows@), sep@),
{
    let mut out: Vec<char> = Vec::new();
    let mut i: usize = 0;
    while i < rows.len()
        invariant
            i <= rows.len(),
            out@ == spec_join(row_views(rows@).take(i as int), sep@),
        decreases rows.len() - i,
    {
        let ghost views = row_views(rows@);
        assert(views.take(i + 1).drop_last() =~= views.take(i as int));
        assert(views.take(i + 1).last() == rows@[i as int]@);
        if i > 0 {
            extend_chars(&mut out, sep);
        }
        extend_chars(&mut out, &rows[i]);
        assert(out@ =~= spec_join(views.take(i + 1), sep@));
        i += 1;
    }
    assert(row_views(rows@).take(rows.len() as int) =~= row_views(rows@));
    out
}

pub fn join_strings(parts: &Vec<String>, sep: &str) -> (out: Vec<char>)
    ensures
        out@ == spec_join(string_views(parts@), sep@),
{
    let mut out: Vec<char> = Vec::new();
    let sep_chars = str_chars(sep);
    let mut i: usize = 0;
    while i < parts.len()
        invariant
            i <= parts.len(),
            sep_chars@ == sep@,
            out@ == spec_join(string_views(parts@).take(i as int), sep@),
        decreases parts.len() - i,
    {
        let ghost views = string_views(parts@);
        assert(views.take(i + 1).drop_last() =~= views.take(i as int));
        assert(views.take(i + 1).last() == parts@[i as int]@);
        if i > 0 {
            extend_chars(&mut out, &sep_chars);
        }
        extend_str(&mut out, parts[i].as_str());
        assert(out@ =~= spec_join(views.take(i + 1), sep@));
        i += 1;
    }
    assert(string_views(parts@).take(parts.len() as int) =~= string_views(parts@));
    out
}

/// The character of a decimal digit.
pub open spec fn digit_char(d: int) -> char {
    if d == 0 {
        '0'
    } else if d == 1 {
        '1'
    } else if d == 2 {
        '2'
    } else if d == 3 {
        '3'
    } else if d == 4 {
        '4'
    } else if d == 5 {
        '5'
    } else if d == 6 {
        '6'
    } else if d == 7 {
        '7'
    } else if d == 8 {
        '8'
    } else {
        '9'
    }
}

/// The decimal digits of a natural number, without leading zeros.
pub open spec fn decimal(n: nat) -> Seq<char>
    decreases n,
{
    if n < 10 {
        seq![digit_char(n as int)]
    } else {
        decimal(n / 10).push(digit_char((n % 10) as int))
    }
}

/// The decimal form of an integer, with a minus sign where it is negative.
pub open spec fn signed_decimal(n: int) -> Seq<char> {
    if n < 0 {
        seq!['-'] + decimal((-n) as nat)
    } else {
        decimal(n as nat)
    }
}

pub fn digit(d: u64) -> (c: char)
    requires
        d < 10,
    ensures
        c == digit_char(d as int),
{
    if d == 0 {
        '0'
    } else if d == 1 {
        '1'
    } else if d == 2 {
        '2'
    } else if d == 3 {
        '3'
    } else if d == 4 {
        '4'
    } else if d == 5 {
        '5'
    } else if d == 6 {
        '6'
    } else if d == 7 {
        '7'
    } else if d == 8 {
        '8'
    } else {
        '9'
    }
}

/// Appends the decimal digits of `n` to `out`.
pub fn push_decimal(out: &mut Vec<char>, n: u64)
    ensures
        final(out)@ == old(out)@ + decimal(n as nat),
    decreases n,
{
    if n >= 10 {
        push_decimal(out, n / 10);
    }
    out.push(digit(n % 10));
    assert(out@ =~= old(out)@ + decimal(n as nat));
}

/// Appends the decimal form of `n` to `out`.
pub fn push_signed_decimal(out: &mut Vec<char>, n: i64)
    ensures
        final(out)@ == old(out)@ + signed_decimal(n as int),
{
    if n < 0 {
        out.push('-');
        let magnitude: u64 = if n == i64::MIN {
            9223372036854775808u64
        } else {
            (-n) as u64
        };
        push_decimal(out, magnitude);
        assert(out@ =~= old(out)@ + signed_decimal(n as int));
    } else {
        push_decimal(out, n as u64);
    }
}

/// Whether `a[from..]` comes before `b[from..]` in the order of the
/// dictionary, or equals it. Characters are ordered by their code points,
/// which is the order of their bytes.
pub open spec fn lex_le_from(a: Seq<char>, b: Seq<char>, from: int) -> bool
    decreases a.len() - from,
{
    if from < 0 || from >= a.len() {
        true
    } else if from >= b.len() {
        false
    } else if a[from] != b[from] {
        (a[from] as u32) < (b[from] as u32)
    } else {
        lex_le_from(a, b, from + 1)
    }
}

/// Whether `a` comes before `b` in the order of the dictionary, or equals
/// it.
pub open spec fn lex_le(a: Seq<char>, b: Seq<char>) -> bool {
    lex_le_from(a, b, 0)
}

pub fn text_le(a: &str, b: &str) -> (le: bool)
    ensures
        le == lex_le(a@, b@),
{
    let left = str_chars(a);
    let right = str_chars(b);
    let mut i: usize = 0;
    while i < left.len()
        invariant
            i <= left.len(),
            left@ == a@,
            right@ == b@,
            lex_le(a@, b@) == lex_le_from(a@, b@, i as int),
        decreases left.len() - i,
    {
        if i >= right.len() {
            return false;
        }
        if left[i] != right[i] {
            return (left[i] as u32) < (right[i] as u32);
        }
        i += 1;
    }
    true
}

/// Whether `a` comes before `b` in the order of the dictionary.
pub open spec fn lex_lt(a: Seq<char>, b: Seq<char>) -> bool {
    lex_le(a, b) && a != b
}

proof fn lemma_lex_total_from(a: Seq<char>, b: Seq<char>, from: int)
    requires
        0 <= from,
    ensures
        lex_le_from(a, b, from) || lex_le_from(b, a, from),
    decreases a.len() - from,
{
    if from < a.len() && from < b.len() {
        if a[from] == b[from] {
            lemma_lex_total_from(a, b, from + 1);
        } else {
            let x = a[from];
            let y = b[from];
            assert(x as u32 == y as u32 ==> x == y) by {
                vstd::utf8::char_u32_cast(x, x as u32);
                vstd::utf8::char_u32_cast(y, y as u32);
            }
        }
    }
}

proof fn lemma_lex_antisymmetric_from(a: Seq<char>, b: Seq<char>, from: int)
    requires
        0 <= from,
        lex_le_from(a, b, from),
        lex_le_from(b, a, from),
        forall|k: int| 0 <= k < from && k < a.len() && k < b.len() ==> a[k] == b[k],
        from <= a.len(),
        from <= b.len(),
    ensures
        a == b,
    decreases a.len() - from,
{
    if from < a.len() {
        assert(from < b.len());
        assert(a[from] == b[from]);
        lemma_lex_antisymmetric_from(a, b, from + 1);
    } else {
        assert(from >= b.len());
        assert(a =~= b);
    }
}

proof fn lemma_lex_transitive_from(a: Seq<char>, b: Seq<char>, c: Seq<char>, from: int)
    requires
        0 <= from,
        lex_le_from(a, b, from),
        lex_le_from(b, c, from),
    ensures
        lex_le_from(a, c, from),
    decreases a.len() - from,
{
    if from < a.len() {
        if a[from] == b[from] && b[from] == c[from] {
            lemma_lex_transitive_from(a, b, c, from + 1);
        }
    }
}

/// Of two texts, one comes before the other or equals it.
pub proof fn lemma_lex_total(a: Seq<char>, b: Seq<char>)
    ensures
        lex_le(a, b) || lex_le(b, a),
{
    lemma_lex_total_from(a, b, 0);
}

/// Two texts of which each comes before the other or equals it are equal.
pub proof fn lemma_lex_antisymmetric(a: Seq<char>, b: Seq<char>)
    requires
        lex_le(a, b),
        lex_le(b, a),
    ensures
        a == b,
{
    lemma_lex_antisymmetric_from(a, b, 0);
}

/// The order of the dictionary is transitive.
pub proof fn lemma_lex_transitive(a: Seq<char>, b: Seq<char>, c: Seq<char>)
    requires
        lex_le(a, b),
        lex_le(b, c),
    ensures
        lex_le(a, c),
        lex_lt(a, b) || lex_lt(b, c) ==> lex_lt(a, c),
{
    lemma_lex_transitive_from(a, b, c, 0);
    if a == c {
        lemma_lex_antisymmetric(a, b);
    }
}

} // verus!
