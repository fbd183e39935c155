use vstd::prelude::*;

verus! {

/// A decimal digit.
pub open spec fn is_digit(c: char) -> bool {
    '0' <= c && c <= '9'
}

/// Text of the shape digits, with at most one point between digits: the
/// simple decimal form that `str::parse` into a number always accepts.
pub open spec fn is_decimal_text(s: Seq<char>) -> bool {
    &&& s.len() > 0
    &&& forall|i: int| 0 <= i < s.len() ==> is_digit(s[i]) || s[i] == '.'
    &&& is_digit(s[0])
    &&& is_digit(s[s.len() - 1])
    &&& forall|i: int, j: int| 0 <= i < j < s.len() && s[i] == '.' ==> s[j] != '.'
}

/// The characters that `str::trim` removes: Unicode `White_Space`.
pub open spec fn is_ws_char(c: char) -> bool {
    c == ' ' || c == '\t' || c == '\n' || c == '\r' || c == '\u{b}' || c == '\u{c}'
        || c == '\u{85}' || c == '\u{a0}' || c == '\u{1680}' || c == '\u{2000}'
        || c == '\u{2001}' || c == '\u{2002}' || c == '\u{2003}' || c == '\u{2004}'
        || c == '\u{2005}' || c == '\u{2006}' || c == '\u{2007}' || c == '\u{2008}'
        || c == '\u{2009}' || c == '\u{200a}' || c == '\u{2028}' || c == '\u{2029}'
        || c == '\u{202f}' || c == '\u{205f}' || c == '\u{3000}'
}

/// Whether `c` counts as whitespace for trimming.
pub fn is_whitespace_char(c: char) -> (r: bool)
    ensures
        r == is_ws_char(c),
{
    c == ' ' || c == '\t' || c == '\n' || c == '\r' || c == '\u{b}' || c == '\u{c}'
        || c == '\u{85}' || c == '\u{a0}' || c == '\u{1680}' || c == '\u{2000}'
        || c == '\u{2001}' || c == '\u{2002}' || c == '\u{2003}' || c == '\u{2004}'
        || c == '\u{2005}' || c == '\u{2006}' || c == '\u{2007}' || c == '\u{2008}'
        || c == '\u{2009}' || c == '\u{200a}' || c == '\u{2028}' || c == '\u{2029}'
        || c == '\u{202f}' || c == '\u{205f}' || c == '\u{3000}'
}

/// The first index at or after `i` holding a non-whitespace character, or the
/// length of `s` if there is none.
pub open spec fn first_non_ws(s: Seq<char>, i: int) -> int
    decreases s.len() - i,
{
    if i < 0 || i >= s.len() {
        s.len() as int
    } else if !is_ws_char(s[i]) {
        i
    } else {
        first_non_ws(s, i + 1)
    }
}

/// The end (exclusive) of the last non-whitespace character strictly before
/// `j`, or 0 if every character before `j` is whitespace.
pub open spec fn last_non_ws_end(s: Seq<char>, j: int) -> int
    decreases j,
{
    if j <= 0 || j > s.len() {
        0
    } else if !is_ws_char(s[j - 1]) {
        j
    } else {
        last_non_ws_end(s, j - 1)
    }
}

/// `s` with leading and trailing whitespace removed.
pub open spec fn trim_ws(s: Seq<char>) -> Seq<char> {
    let a = first_non_ws(s, 0);
    let b = last_non_ws_end(s, s.len() as int);
    if a <= b {
        s.subrange(a, b)
    } else {
        Seq::empty()
    }
}

pub proof fn lemma_first_non_ws(s: Seq<char>, i: int)
    requires
        0 <= i <= s.len(),
    ensures
        i <= first_non_ws(s, i) <= s.len(),
        first_non_ws(s, i) < s.len() ==> !is_ws_char(s[first_non_ws(s, i)]),
        forall|k: int| i <= k < first_non_ws(s, i) ==> is_ws_char(s[k]),
    decreases s.len() - i,
{
    if i < s.len() && is_ws_char(s[i]) {
        lemma_first_non_ws(s, i + 1);
    }
}

pub proof fn lemma_last_non_ws_end(s: Seq<char>, j: int)
    requires
        0 <= j <= s.len(),
    ensures
        0 <= last_non_ws_end(s, j) <= j,
        last_non_ws_end(s, j) > 0 ==> !is_ws_char(s[last_non_ws_end(s, j) - 1]),
        forall|k: int| last_non_ws_end(s, j) <= k < j ==> is_ws_char(s[k]),
    decreases j,
{
    if j > 0 && is_ws_char(s[j - 1]) {
        lemma_last_non_ws_end(s, j - 1);
    }
}

/// The trimmed text never starts or ends with whitespace.
pub proof fn lemma_trim_ws_clean(s: Seq<char>)
    ensures
        trim_ws(s).len() > 0 ==> !is_ws_char(trim_ws(s)[0]),
        trim_ws(s).len() > 0 ==> !is_ws_char(trim_ws(s)[trim_ws(s).len() - 1]),
{
    lemma_first_non_ws(s, 0);
    lemma_last_non_ws_end(s, s.len() as int);
    let a = first_non_ws(s, 0);
    let b = last_non_ws_end(s, s.len() as int);
    if a <= b && a < b {
        assert(!is_ws_char(s[a]));
        assert(!is_ws_char(s[b - 1]));
    }
}

/// A copy of `s` with leading and trailing whitespace removed, as `str::trim`
/// does it.
pub fn trim_text(s: &str) -> (r: String)
    ensures
        r@ == trim_ws(s@),
        r@.len() > 0 ==> !is_ws_char(r@[0]),
        r@.len() > 0 ==> !is_ws_char(r@[r@.len() - 1]),
{
    let n: usize = s.unicode_len();
    let mut start: usize = 0;
    while start < n && is_whitespace_char(s.get_char(start))
        invariant
            0 <= start <= n,
            n == s@.len(),
            first_non_ws(s@, 0) == first_non_ws(s@, start as int),
            forall|k: int| 0 <= k < start ==> is_ws_char(s@[k]),
        decreases n - start,
    {
        assert(first_non_ws(s@, start as int) == first_non_ws(s@, start + 1));
        start = start + 1;
    }
    assert(first_non_ws(s@, start as int) == start) by {
        if start < n {
            assert(!is_ws_char(s@[start as int]));
        }
    }
    let mut end: usize = n;
    while end > start && is_whitespace_char(s.get_char(end - 1))
        invariant
            start <= end <= n,
            n == s@.len(),
            first_non_ws(s@, 0) == start as int,
            forall|k: int| 0 <= k < start ==> is_ws_char(s@[k]),
            last_non_ws_end(s@, n as int) == last_non_ws_end(s@, end as int),
        decreases end,
    {
        assert(last_non_ws_end(s@, end as int) == last_non_ws_end(s@, end - 1));
        end = end - 1;
    }
    proof {
        lemma_last_non_ws_end(s@, end as int);
        if end > start {
            assert(!is_ws_char(s@[end - 1]));
            assert(last_non_ws_end(s@, end as int) == end);
        } else {
            // everything before `end == start` is whitespace, so the backward
            // scan from `end` reaches 0
            lemma_ws_prefix_end(s@, end as int);
        }
        lemma_trim_ws_clean(s@);
    }
    let r = s.substring_char(start, end).to_owned();
    proof {
        if last_non_ws_end(s@, n as int) <= start as int {
            assert(r@ =~= trim_ws(s@));
        }
    }
    r
}

/// The characters of `v` as a string, with leading and trailing whitespace
/// removed.
pub fn chars_to_trimmed_string(v: &Vec<char>) -> (r: String)
    ensures
        r@ == trim_ws(v@),
        r@.len() > 0 ==> !is_ws_char(r@[0]),
        r@.len() > 0 ==> !is_ws_char(r@[r@.len() - 1]),
{
    let s = crate::capability::chars_to_string(v);
    trim_text(s.as_str())
}

/// A backward scan over pure whitespace reaches 0.
proof fn lemma_ws_prefix_end(s: Seq<char>, j: int)
    requires
        0 <= j <= s.len(),
        forall|k: int| 0 <= k < j ==> is_ws_char(s[k]),
    ensures
        last_non_ws_end(s, j) == 0,
    decreases j,
{
    if j > 0 {
        lemma_ws_prefix_end(s, j - 1);
    }
}

/// Append the characters of `s` to `out`.
pub fn push_str_chars(out: &mut Vec<char>, s: &str)
    ensures
        final(out)@ == old(out)@ + s@,
{
    let n: usize = s.unicode_len();
    let mut i: usize = 0;
    while i < n
        invariant
            0 <= i <= n,
            n == s@.len(),
            out@ == old(out)@ + s@.subrange(0, i as int),
        decreases n - i,
    {
        let c = s.get_char(i);
        out.push(c);
        proof {
            assert(old(out)@ + s@.subrange(0, i + 1) =~= (old(out)@ + s@.subrange(
                0,
                i as int,
            )).push(s@[i as int]));
        }
        i = i + 1;
    }
    proof {
        assert(s@.subrange(0, n as int) =~= s@);
    }
}

} // verus!
