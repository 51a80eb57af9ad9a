//! Character-sequence helpers shared by the pattern parser: trimming,
//! stripping repeated markers, and membership tests, each with an exact
//! specification over `Seq<char>`.

use vstd::prelude::*;
use vstd::string::StrSliceExecFns;

verus! {

/// The whitespace characters recognised when trimming a pattern line
/// (the ASCII whitespace set).
pub open spec fn spec_is_space(c: char) -> bool {
    c == ' ' || c == '\t' || c == '\n' || c == '\r' || c == '\u{b}' || c == '\u{c}'
}

/// True when the character is one of the whitespace characters that
/// line trimming removes.
pub fn is_space(c: char) -> (r: bool)
    ensures
        r == spec_is_space(c),
{
    c == ' ' || c == '\t' || c == '\n' || c == '\r' || c == '\u{b}' || c == '\u{c}'
}

/// The sequence with its leading whitespace removed.
pub open spec fn spec_trim_start(s: Seq<char>) -> Seq<char>
    decreases s.len(),
{
    if s.len() > 0 && spec_is_space(s[0]) {
        spec_trim_start(s.drop_first())
    } else {
        s
    }
}

/// The sequence with its trailing whitespace removed.
pub open spec fn spec_trim_end(s: Seq<char>) -> Seq<char>
    decreases s.len(),
{
    if s.len() > 0 && spec_is_space(s[s.len() - 1]) {
        spec_trim_end(s.drop_last())
    } else {
        s
    }
}

/// The sequence with whitespace removed from both ends.
pub open spec fn spec_trim(s: Seq<char>) -> Seq<char> {
    spec_trim_end(spec_trim_start(s))
}

/// The sequence with every leading occurrence of `c` removed.
pub open spec fn spec_strip_leading(s: Seq<char>, c: char) -> Seq<char>
    decreases s.len(),
{
    if s.len() > 0 && s[0] == c {
        spec_strip_leading(s.drop_first(), c)
    } else {
        s
    }
}

/// The sequence with every trailing occurrence of `c` removed.
pub open spec fn spec_strip_trailing(s: Seq<char>, c: char) -> Seq<char>
    decreases s.len(),
{
    if s.len() > 0 && s[s.len() - 1] == c {
        spec_strip_trailing(s.drop_last(), c)
    } else {
        s
    }
}

/// The sequence with every occurrence of `c` removed.
pub open spec fn spec_remove_char(s: Seq<char>, c: char) -> Seq<char>
    decreases s.len(),
{
    if s.len() == 0 {
        Seq::empty()
    } else if s[s.len() - 1] == c {
        spec_remove_char(s.drop_last(), c)
    } else {
        spec_remove_char(s.drop_last(), c).push(s[s.len() - 1])
    }
}

/// The characters of a string slice, as a vector.
pub fn str_chars(s: &str) -> (r: Vec<char>)
    ensures
        r@ == s@,
{
    let n = s.unicode_len();
    let mut r: Vec<char> = Vec::new();
    let mut i: usize = 0;
    while i < n
        invariant
            i <= n,
            n == s@.len(),
            r@ == s@.subrange(0, i as int),
        decreases n - i,
    {
        r.push(s.get_char(i));
        i += 1;
    }
    assert(r@ =~= s@);
    r
}

proof fn lemma_trim_start_window(s: Seq<char>, k: int)
    requires
        0 <= k <= s.len(),
        forall|i: int| 0 <= i < k ==> spec_is_space(s[i]),
        k == s.len() || !spec_is_space(s[k]),
    ensures
        spec_trim_start(s) == s.skip(k),
    decreases k,
{
    if k == 0 {
        assert(s.skip(0) =~= s);
    } else {
        assert(spec_is_space(s[0]));
        let t = s.drop_first();
        assert(forall|i: int| 0 <= i < k - 1 ==> spec_is_space(t[i]));
        lemma_trim_start_window(t, k - 1);
        assert(t.skip(k - 1) =~= s.skip(k));
    }
}

proof fn lemma_trim_end_window(s: Seq<char>, k: int)
    requires
        0 <= k <= s.len(),
        forall|i: int| k <= i < s.len() ==> spec_is_space(s[i]),
        k == 0 || !spec_is_space(s[k - 1]),
    ensures
        spec_trim_end(s) == s.take(k),
    decreases s.len() - k,
{
    if k == s.len() {
        assert(s.take(k) =~= s);
    } else {
        assert(spec_is_space(s[s.len() - 1]));
        let t = s.drop_last();
        lemma_trim_end_window(t, k);
        assert(t.take(k) =~= s.take(k));
    }
}

proof fn lemma_strip_leading_window(s: Seq<char>, c: char, k: int)
    requires
        0 <= k <= s.len(),
        forall|i: int| 0 <= i < k ==> s[i] == c,
        k == s.len() || s[k] != c,
    ensures
        spec_strip_leading(s, c) == s.skip(k),
    decreases k,
{
    if k == 0 {
        assert(s.skip(0) =~= s);
    } else {
        let t = s.drop_first();
        assert(forall|i: int| 0 <= i < k - 1 ==> t[i] == c);
        lemma_strip_leading_window(t, c, k - 1);
        assert(t.skip(k - 1) =~= s.skip(k));
    }
}

proof fn lemma_strip_trailing_window(s: Seq<char>, c: char, k: int)
    requires
        0 <= k <= s.len(),
        forall|i: int| k <= i < s.len() ==> s[i] == c,
        k == 0 || s[k - 1] != c,
    ensures
        spec_strip_trailing(s, c) == s.take(k),
    decreases s.len() - k,
{
    if k == s.len() {
        assert(s.take(k) =~= s);
    } else {
        let t = s.drop_last();
        lemma_strip_trailing_window(t, c, k);
        assert(t.take(k) =~= s.take(k));
    }
}

/// The window of `v` between `lo` and `hi` with whitespace trimmed from
/// both ends, returned as a pair of window bounds.
pub fn trim_indices(v: &Vec<char>, lo: usize, hi: usize) -> (r: (usize, usize))
    requires
        lo <= hi <= v@.len(),
    ensures
        lo <= r.0 <= r.1 <= hi,
        v@.subrange(r.0 as int, r.1 as int) == spec_trim(v@.subrange(lo as int, hi as int)),
{
    let ghost s = v@.subrange(lo as int, hi as int);
    let mut i = lo;
    while i < hi && is_space(v[i])
        invariant
            lo <= i <= hi <= v@.len(),
            forall|k: int| lo <= k < i ==> spec_is_space(v@[k]),
        decreases hi - i,
    {
        i += 1;
    }
    proof {
        assert forall|m: int| 0 <= m < i - lo implies spec_is_space(s[m]) by {
            assert(s[m] == v@[lo + m]);
        }
        lemma_trim_start_window(s, i - lo);
    }
    let ghost t = s.skip(i - lo);
    let mut j = hi;
    while j > i && is_space(v[j - 1])
        invariant
            lo <= i <= j <= hi,
            i <= hi <= v@.len(),
            s == v@.subrange(lo as int, hi as int),
            t == s.skip(i - lo),
            forall|k: int| j - i <= k < t.len() ==> spec_is_space(t[k]),
        decreases j,
    {
        proof {
            assert(t[j - 1 - i] == v@[j - 1]);
        }
        j -= 1;
    }
    proof {
        assert(j > i ==> t[j - 1 - i] == v@[j - 1]);
        lemma_trim_end_window(t, j - i);
        assert(t.take(j - i) =~= v@.subrange(i as int, j as int));
    }
    (i, j)
}

/// The start of the window of `v` between `lo` and `hi` once every
/// leading occurrence of `c` is removed.
pub fn strip_leading_index(v: &Vec<char>, lo: usize, hi: usize, c: char) -> (r: usize)
    requires
        lo <= hi <= v@.len(),
    ensures
        lo <= r <= hi,
        v@.subrange(r as int, hi as int) == spec_strip_leading(
            v@.subrange(lo as int, hi as int),
            c,
        ),
{
    let ghost s = v@.subrange(lo as int, hi as int);
    let mut i = lo;
    while i < hi && v[i] == c
        invariant
            lo <= i <= hi <= v@.len(),
            forall|k: int| lo <= k < i ==> v@[k] == c,
        decreases hi - i,
    {
        i += 1;
    }
    proof {
        assert forall|m: int| 0 <= m < i - lo implies s[m] == c by {
            assert(s[m] == v@[lo + m]);
        }
        lemma_strip_leading_window(s, c, i - lo);
        assert(s.skip(i - lo) =~= v@.subrange(i as int, hi as int));
    }
    i
}

/// The end of the window of `v` between `lo` and `hi` once every
/// trailing occurrence of `c` is removed.
pub fn strip_trailing_index(v: &Vec<char>, lo: usize, hi: usize, c: char) -> (r: usize)
    requires
        lo <= hi <= v@.len(),
    ensures
        lo <= r <= hi,
        v@.subrange(lo as int, r as int) == spec_strip_trailing(
            v@.subrange(lo as int, hi as int),
            c,
        ),
{
    let ghost s = v@.subrange(lo as int, hi as int);
    let mut j = hi;
    while j > lo && v[j - 1] == c
        invariant
            lo <= j <= hi <= v@.len(),
            forall|k: int| j - lo <= k < s.len() ==> s[k] == c,
            s == v@.subrange(lo as int, hi as int),
        decreases j,
    {
        proof {
            assert(s[j - 1 - lo] == v@[j - 1]);
        }
        j -= 1;
    }
    proof {
        assert(j > lo ==> s[j - 1 - lo] == v@[j - 1]);
        lemma_strip_trailing_window(s, c, j - lo);
        assert(s.take(j - lo) =~= v@.subrange(lo as int, j as int));
    }
    j
}

/// True when some character of the window of `v` between `lo` and `hi`
/// equals `c`.
pub fn window_contains(v: &Vec<char>, lo: usize, hi: usize, c: char) -> (r: bool)
    requires
        lo <= hi <= v@.len(),
    ensures
        r == v@.subrange(lo as int, hi as int).contains(c),
{
    let ghost s = v@.subrange(lo as int, hi as int);
    let mut i = lo;
    while i < hi
        invariant
            lo <= i <= hi <= v@.len(),
            s == v@.subrange(lo as int, hi as int),
            forall|k: int| 0 <= k < i - lo ==> s[k] != c,
        decreases hi - i,
    {
        if v[i] == c {
            proof {
                assert(s[i - lo] == c);
            }
            return true;
        }
        i += 1;
    }
    false
}

} // verus!
