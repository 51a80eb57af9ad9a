//! The path-ignore rule engine: parsing of gitignore-style pattern
//! lines into rules, compilation of the rules into one combined glob
//! matcher, and the `is_ignored` query reproducing git's precedence,
//! negation, anchoring and directory-only semantics.

use vstd::prelude::*;

use crate::globs::{
    builder_globs, glob_build_ok, glob_matches, glob_new, globset_builder_add,
    globset_builder_build, globset_builder_new, globset_globs, globset_matches, set_build_ok,
};
use crate::text::{
    spec_remove_char, spec_strip_leading, spec_strip_trailing, spec_trim, str_chars,
    strip_leading_index, strip_trailing_index, trim_indices, window_contains,
};

verus! {

/// True when `p` is a prefix of `s`.
pub open spec fn spec_starts_with(s: Seq<char>, p: Seq<char>) -> bool {
    p.len() <= s.len() && forall|i: int| 0 <= i < p.len() ==> s[i] == p[i]
}

/// True when `p` is a suffix of `s`.
pub open spec fn spec_ends_with(s: Seq<char>, p: Seq<char>) -> bool {
    p.len() <= s.len() && forall|i: int| 0 <= i < p.len() ==> s[s.len() - p.len() + i] == p[i]
}

/// The mathematical value of one parsed rule: the normalized pattern
/// text and the three flags read off the original line.
#[verifier::ext_equal]
pub ghost struct RuleV {
    pub pattern: Seq<char>,
    pub anchored: bool,
    pub dir_only: bool,
    pub negation: bool,
}

/// The mathematical value of one parsed line.
#[verifier::ext_equal]
pub ghost enum ParsedLineV {
    Empty,
    Comment,
    WithRule(RuleV),
}

/// One directive derived from a single ignore-pattern line: a
/// normalized glob pattern plus its flags.
#[derive(Debug)]
pub struct Rule {
    /// The normalized pattern, rewritten so it can be matched directly
    /// against a path relative to the ruleset root.
    pub pattern: Vec<char>,
    /// Whether wildcards of this rule may not match across a `/`
    /// (the original line contained a separator or began with one).
    pub anchored: bool,
    /// Whether this rule may only suppress directories, never files
    /// (the original line ended with `/`).
    pub dir_only: bool,
    /// Whether a match by this rule re-includes a path rather than
    /// excluding it (the original line began with `!`).
    pub negation: bool,
}

impl View for Rule {
    type V = RuleV;

    open spec fn view(&self) -> RuleV {
        RuleV {
            pattern: self.pattern@,
            anchored: self.anchored,
            dir_only: self.dir_only,
            negation: self.negation,
        }
    }
}

impl DeepView for Rule {
    type V = RuleV;

    open spec fn deep_view(&self) -> RuleV {
        self.view()
    }
}

/// The outcome of parsing one line: a blank line, a comment, or a rule.
pub enum ParsedLine {
    /// A blank line; it contributes nothing.
    Empty,
    /// A line starting with `#`; it contributes nothing.
    Comment,
    /// A line that yielded a rule.
    WithRule(Rule),
}

impl View for ParsedLine {
    type V = ParsedLineV;

    open spec fn view(&self) -> ParsedLineV {
        match self {
            ParsedLine::Empty => ParsedLineV::Empty,
            ParsedLine::Comment => ParsedLineV::Comment,
            ParsedLine::WithRule(r) => ParsedLineV::WithRule(r@),
        }
    }
}

/// What parsing one raw line yields: surrounding whitespace is trimmed;
/// a blank line or a `#` comment is a no-op; otherwise a leading `!`
/// marks negation, a trailing `/` marks a directory-only rule, a
/// leading `/` anchors the pattern to the root; backslashes are
/// stripped; an unanchored pattern is prefixed with `**/` so it may
/// match at any depth; and a pattern ending in `/**` has `/*` appended
/// so it matches a directory's contents, not the directory itself.
pub open spec fn spec_parse_line(line: Seq<char>) -> ParsedLineV {
    let t = spec_trim(line);
    if t.len() == 0 {
        ParsedLineV::Empty
    } else if t[0] == '#' {
        ParsedLineV::Comment
    } else {
        let negation = t[0] == '!';
        let t1 = if negation {
            spec_trim(spec_strip_leading(t, '!'))
        } else {
            t
        };
        let dir_only = t1.len() > 0 && t1[t1.len() - 1] == '/';
        let t2 = if dir_only {
            spec_trim(spec_strip_trailing(t1, '/'))
        } else {
            t1
        };
        let absolute = t2.len() > 0 && t2[0] == '/';
        let t3 = if absolute {
            spec_strip_leading(t2, '/')
        } else {
            t2
        };
        let anchored = absolute || t3.contains('/');
        let base = spec_remove_char(t3, '\\');
        let pre = if !absolute && !spec_starts_with(t3, seq!['*', '*', '/']) {
            seq!['*', '*', '/'] + base
        } else {
            base
        };
        let pattern = if spec_ends_with(pre, seq!['/', '*', '*']) {
            pre + seq!['/', '*']
        } else {
            pre
        };
        ParsedLineV::WithRule(RuleV { pattern, anchored, dir_only, negation })
    }
}

/// Parse one raw pattern line into a blank marker, a comment marker, or
/// a rule, following the gitignore syntax.
#[verifier::rlimit(100)]
pub fn parse_line(raw: &str) -> (p: ParsedLine)
    ensures
        p@ == spec_parse_line(raw@),
{
    let v = str_chars(raw);
    let (lo, hi) = trim_indices(&v, 0, v.len());
    proof {
        assert(v@.subrange(0, v@.len() as int) =~= v@);
    }
    let ghost t = spec_trim(raw@);
    proof {
        assert(v@.subrange(lo as int, hi as int) == t);
    }
    if lo == hi {
        return ParsedLine::Empty;
    }
    proof {
        assert(t[0] == v@[lo as int]);
    }
    if v[lo] == '#' {
        return ParsedLine::Comment;
    }
    let negation = v[lo] == '!';
    let mut lo1 = lo;
    let mut hi1 = hi;
    if negation {
        let k = strip_leading_index(&v, lo, hi, '!');
        let (a, b) = trim_indices(&v, k, hi);
        lo1 = a;
        hi1 = b;
    }
    let ghost t1 = if negation {
        spec_trim(spec_strip_leading(t, '!'))
    } else {
        t
    };
    proof {
        assert(v@.subrange(lo1 as int, hi1 as int) == t1);
    }
    let dir_only = hi1 > lo1 && v[hi1 - 1] == '/';
    proof {
        assert(hi1 > lo1 ==> t1[t1.len() - 1] == v@[hi1 - 1]);
    }
    let mut lo2 = lo1;
    let mut hi2 = hi1;
    if dir_only {
        let k = strip_trailing_index(&v, lo1, hi1, '/');
        let (a, b) = trim_indices(&v, lo1, k);
        lo2 = a;
        hi2 = b;
    }
    let ghost t2 = if dir_only {
        spec_trim(spec_strip_trailing(t1, '/'))
    } else {
        t1
    };
    proof {
        assert(v@.subrange(lo2 as int, hi2 as int) == t2);
    }
    let absolute = hi2 > lo2 && v[lo2] == '/';
    proof {
        assert(hi2 > lo2 ==> t2[0] == v@[lo2 as int]);
    }
    let mut lo3 = lo2;
    if absolute {
        lo3 = strip_leading_index(&v, lo2, hi2, '/');
    }
    let hi3 = hi2;
    let ghost t3 = if absolute {
        spec_strip_leading(t2, '/')
    } else {
        t2
    };
    proof {
        assert(v@.subrange(lo3 as int, hi3 as int) == t3);
    }
    let anchored = absolute || window_contains(&v, lo3, hi3, '/');
    let has_rec_prefix = hi3 - lo3 >= 3 && v[lo3] == '*' && v[lo3 + 1] == '*' && v[lo3 + 2]
        == '/';
    proof {
        if has_rec_prefix {
            assert(t3[0] == v@[lo3 as int]);
            assert(t3[1] == v@[lo3 + 1]);
            assert(t3[2] == v@[lo3 + 2]);
            assert(spec_starts_with(t3, seq!['*', '*', '/']));
        } else if t3.len() >= 3 {
            assert(t3[0] == v@[lo3 as int]);
            assert(t3[1] == v@[lo3 + 1]);
            assert(t3[2] == v@[lo3 + 2]);
            assert(!spec_starts_with(t3, seq!['*', '*', '/']));
        }
    }
    let mut pattern: Vec<char> = Vec::new();
    if !absolute && !has_rec_prefix {
        pattern.push('*');
        pattern.push('*');
        pattern.push('/');
    }
    let ghost pre0: Seq<char> = if !absolute && !has_rec_prefix {
        seq!['*', '*', '/']
    } else {
        Seq::empty()
    };
    proof {
        assert(pattern@ =~= pre0);
        assert(spec_remove_char(v@.subrange(lo3 as int, lo3 as int), '\\') =~= Seq::<
            char,
        >::empty());
    }
    let mut i = lo3;
    while i < hi3
        invariant
            lo3 <= i <= hi3 <= v@.len(),
            pattern@ == pre0 + spec_remove_char(v@.subrange(lo3 as int, i as int), '\\'),
        decreases hi3 - i,
    {
        let ghost s_old = v@.subrange(lo3 as int, i as int);
        let ghost s_new = v@.subrange(lo3 as int, i + 1);
        proof {
            assert(s_new.drop_last() =~= s_old);
            assert(s_new[s_new.len() - 1] == v@[i as int]);
        }
        if v[i] != '\\' {
            pattern.push(v[i]);
        }
        i += 1;
        proof {
            assert(pattern@ =~= pre0 + spec_remove_char(s_new, '\\'));
        }
    }
    let ghost base = spec_remove_char(t3, '\\');
    let ghost pre = if !absolute && !spec_starts_with(t3, seq!['*', '*', '/']) {
        seq!['*', '*', '/'] + base
    } else {
        base
    };
    proof {
        assert(pattern@ =~= pre);
    }
    let m = pattern.len();
    let ends_rec = m >= 3 && pattern[m - 3] == '/' && pattern[m - 2] == '*' && pattern[m - 1]
        == '*';
    proof {
        if ends_rec {
            assert(spec_ends_with(pre, seq!['/', '*', '*'])) by {
                assert(pre[pre.len() - 3] == '/');
                assert(pre[pre.len() - 2] == '*');
                assert(pre[pre.len() - 1] == '*');
            }
        } else if pre.len() >= 3 {
            assert(!spec_ends_with(pre, seq!['/', '*', '*'])) by {
                if spec_ends_with(pre, seq!['/', '*', '*']) {
                    assert(pre[pre.len() - 3] == seq!['/', '*', '*'][0]);
                    assert(pre[pre.len() - 2] == seq!['/', '*', '*'][1]);
                    assert(pre[pre.len() - 1] == seq!['/', '*', '*'][2]);
                }
            }
        }
    }
    if ends_rec {
        pattern.push('/');
        pattern.push('*');
        proof {
            assert(pattern@ =~= pre + seq!['/', '*']);
        }
    }
    ParsedLine::WithRule(Rule { pattern, anchored, dir_only, negation })
}

/// The sequence with a leading `./` removed, if present.
pub open spec fn spec_strip_dot_slash(s: Seq<char>) -> Seq<char> {
    if s.len() >= 2 && s[0] == '.' && s[1] == '/' {
        s.skip(2)
    } else {
        s
    }
}

/// The root path as a ruleset stores it: with a leading `./` removed.
pub open spec fn spec_clean_root(root: Seq<char>) -> Seq<char> {
    spec_strip_dot_slash(root)
}

/// The path with the root prefix removed, when the path begins with the
/// root followed by a separator (or equals it); other paths are
/// returned unchanged.
pub open spec fn spec_strip_root(root: Seq<char>, q: Seq<char>) -> Seq<char> {
    if root.len() == 0 {
        q
    } else if root.len() <= q.len() && (forall|i: int| 0 <= i < root.len() ==> q[i] == root[i]) {
        if q.len() == root.len() {
            Seq::empty()
        } else if q[root.len() as int] == '/' {
            q.skip(root.len() as int + 1)
        } else if root[root.len() - 1] == '/' {
            q.skip(root.len() as int)
        } else {
            q
        }
    } else {
        q
    }
}

/// How a queried path is normalized before matching: a leading `./` is
/// removed, then the ruleset's root prefix is removed if the path
/// begins with it.
pub open spec fn spec_normalize(root: Seq<char>, path: Seq<char>) -> Seq<char> {
    spec_strip_root(root, spec_strip_dot_slash(path))
}

/// The elements of `v` from `k` on, as a fresh vector.
fn vec_skip(v: &Vec<char>, k: usize) -> (r: Vec<char>)
    requires
        k <= v@.len(),
    ensures
        r@ == v@.skip(k as int),
{
    let mut r: Vec<char> = Vec::new();
    let mut i = k;
    while i < v.len()
        invariant
            k <= i <= v@.len(),
            r@ == v@.subrange(k as int, i as int),
        decreases v@.len() - i,
    {
        r.push(v[i]);
        proof {
            assert(v@.subrange(k as int, i + 1) =~= v@.subrange(k as int, i as int).push(
                v@[i as int],
            ));
        }
        i += 1;
    }
    proof {
        assert(v@.subrange(k as int, v@.len() as int) =~= v@.skip(k as int));
    }
    r
}

/// The characters with a leading `./` removed, if present.
fn strip_dot_slash_vec(v: Vec<char>) -> (r: Vec<char>)
    ensures
        r@ == spec_strip_dot_slash(v@),
{
    if v.len() >= 2 && v[0] == '.' && v[1] == '/' {
        vec_skip(&v, 2)
    } else {
        v
    }
}

/// The characters with the root prefix removed, as `spec_strip_root`
/// describes.
fn strip_root_vec(root: &Vec<char>, q: Vec<char>) -> (r: Vec<char>)
    ensures
        r@ == spec_strip_root(root@, q@),
{
    if root.len() == 0 {
        return q;
    }
    if root.len() > q.len() {
        return q;
    }
    let mut i: usize = 0;
    while i < root.len()
        invariant
            i <= root@.len() <= q@.len(),
            forall|k: int| 0 <= k < i ==> q@[k] == root@[k],
        decreases root@.len() - i,
    {
        if q[i] != root[i] {
            return q;
        }
        i += 1;
    }
    if q.len() == root.len() {
        let r: Vec<char> = Vec::new();
        proof {
            assert(r@ =~= Seq::<char>::empty());
        }
        r
    } else if q[root.len()] == '/' {
        vec_skip(&q, root.len() + 1)
    } else if root[root.len() - 1] == '/' {
        vec_skip(&q, root.len())
    } else {
        q
    }
}

/// The ordered rules that a sequence of raw lines yields: blank lines
/// and comments contribute nothing, every other line one rule, in
/// order.
pub open spec fn spec_rules_of(lines: Seq<Seq<char>>) -> Seq<RuleV>
    decreases lines.len(),
{
    if lines.len() == 0 {
        Seq::empty()
    } else {
        spec_rules_of(lines.drop_last()) + (match spec_parse_line(lines.last()) {
            ParsedLineV::WithRule(r) => seq![r],
            _ => Seq::<RuleV>::empty(),
        })
    }
}

/// The (pattern, literal_separator) pairs the combined matcher is built
/// from: one per rule, with `literal_separator` tied to the rule's
/// `anchored` flag.
pub open spec fn rule_pairs(rl: Seq<RuleV>) -> Seq<(Seq<char>, bool)> {
    Seq::new(rl.len(), |i: int| (rl[i].pattern, rl[i].anchored))
}

/// The ignore decision taken by scanning rules from index `i` down to
/// the first applicable match: a rule applies when its pattern matches
/// the normalized path and, if the rule is directory-only, the query is
/// for a directory; the first applicable rule decides (`!negation`),
/// and `false` is the default when none applies.
pub open spec fn ignored_from(rules: Seq<RuleV>, path: Seq<char>, is_dir: bool, i: int) -> bool
    decreases i + 1,
{
    if i < 0 || i >= rules.len() {
        false
    } else if glob_matches(rules[i].pattern, rules[i].anchored, path) && (is_dir
        || !rules[i].dir_only) {
        !rules[i].negation
    } else {
        ignored_from(rules, path, is_dir, i - 1)
    }
}

/// The mathematical value of a ruleset: its cleaned root and its
/// ordered rules.
#[verifier::ext_equal]
pub ghost struct RuleSetV {
    pub root: Seq<char>,
    pub rules: Seq<RuleV>,
}

/// The ruleset that building from the given root and raw lines yields.
pub open spec fn spec_build(root: Seq<char>, lines: Seq<Seq<char>>) -> RuleSetV {
    RuleSetV { root: spec_clean_root(root), rules: spec_rules_of(lines) }
}

/// Whether a rule list compiles: every rule's pattern is a valid glob,
/// and the combined matcher assembles from the rules' glob pairs.
pub open spec fn spec_compiles(rl: Seq<RuleV>) -> bool {
    &&& forall|i: int| 0 <= i < rl.len() ==> glob_build_ok(rl[i].pattern, rl[i].anchored)
    &&& set_build_ok(rule_pairs(rl))
}

/// Whether a ruleset ignores the given path: the path is normalized
/// against the root, and the rules are scanned from the last to the
/// first, so that a later rule overrides an earlier one.
pub open spec fn spec_is_ignored(v: RuleSetV, path: Seq<char>, is_dir: bool) -> bool {
    ignored_from(v.rules, spec_normalize(v.root, path), is_dir, v.rules.len() - 1)
}

/// Why a ruleset could not be built.
#[derive(Debug, PartialEq, Eq)]
pub enum CompileError {
    /// The rule at this index (counting rules, not raw lines) is not a
    /// syntactically valid glob.
    InvalidGlob(usize),
    /// Every rule is a valid glob, but the combined matcher could not
    /// be assembled.
    SetBuild,
}

/// A set of ignore rules compiled against a root path. Construction is
/// the expensive step; once built, a ruleset is immutable and answers
/// `is_ignored` queries cheaply.
#[derive(Debug)]
pub struct RuleSet {
    root: Vec<char>,
    rules: Vec<Rule>,
    tester: globset::GlobSet,
}

impl View for RuleSet {
    type V = RuleSetV;

    closed spec fn view(&self) -> RuleSetV {
        RuleSetV { root: self.root@, rules: self.rules.deep_view() }
    }
}

impl RuleSet {
    /// The compiled matcher holds exactly one glob per rule, in order,
    /// built from the rule's pattern with `literal_separator` tied to
    /// its `anchored` flag.
    #[verifier::type_invariant]
    spec fn wf(self) -> bool {
        &&& globset_globs(self.tester).len() == self.rules@.len()
        &&& forall|i: int|
            0 <= i < self.rules@.len() ==> globset_globs(self.tester)[i] == (
                self.rules@[i]@.pattern,
                self.rules@[i]@.anchored,
            )
    }

    /// Build a ruleset from a root path and raw pattern lines.
    ///
    /// Construction succeeds exactly when the parsed rules compile
    /// (`spec_compiles`), and then the ruleset's value is exactly
    /// `spec_build` of the inputs; with no rules it always succeeds.
    /// It fails with `InvalidGlob(j)` when rule `j` is the first whose
    /// pattern is not a valid glob, and with `SetBuild` exactly when
    /// every rule is valid but the combined matcher does not assemble.
    pub fn new(root: &str, raw_rules: Vec<&str>) -> (r: Result<RuleSet, CompileError>)
        ensures
            ({
                let v = spec_build(root@, raw_rules.deep_view());
                &&& (r is Ok <==> spec_compiles(v.rules))
                &&& (v.rules.len() == 0 ==> r is Ok)
                &&& (r matches Ok(rs) ==> rs@ == v)
                &&& (r matches Err(CompileError::InvalidGlob(j)) ==> j < v.rules.len()
                    && !glob_build_ok(v.rules[j as int].pattern, v.rules[j as int].anchored)
                    && (forall|i: int|
                    0 <= i < j ==> glob_build_ok(v.rules[i].pattern, v.rules[i].anchored)))
                &&& (r matches Err(CompileError::SetBuild) ==> !set_build_ok(rule_pairs(v.rules))
                    && (forall|i: int|
                    0 <= i < v.rules.len() ==> glob_build_ok(
                        v.rules[i].pattern,
                        v.rules[i].anchored,
                    )))
            }),
    {
        let ghost lines = raw_rules.deep_view();
        let root_chars = str_chars(root);
        let root_vec = strip_dot_slash_vec(root_chars);
        let mut rules: Vec<Rule> = Vec::new();
        let mut idx: usize = 0;
        while idx < raw_rules.len()
            invariant
                idx <= raw_rules@.len(),
                lines == raw_rules.deep_view(),
                rules.deep_view() == spec_rules_of(lines.take(idx as int)),
            decreases raw_rules@.len() - idx,
        {
            let line: &str = raw_rules[idx];
            proof {
                assert(lines[idx as int] == raw_rules@[idx as int]@);
                assert(lines.take(idx + 1).drop_last() =~= lines.take(idx as int));
                assert(lines.take(idx + 1).last() == lines[idx as int]);
            }
            let ghost old_dv = rules.deep_view();
            match parse_line(line) {
                ParsedLine::WithRule(rule) => {
                    rules.push(rule);
                    proof {
                        assert(rules.deep_view() =~= old_dv.push(
                            spec_rules_of(lines.take(idx + 1)).last(),
                        ));
                        assert(rules.deep_view() =~= spec_rules_of(lines.take(idx + 1)));
                    }
                },
                _ => {
                    proof {
                        assert(rules.deep_view() =~= spec_rules_of(lines.take(idx + 1)));
                    }
                },
            }
            idx += 1;
        }
        proof {
            assert(lines.take(lines.len() as int) =~= lines);
        }
        let ghost rvs = rules.deep_view();
        let mut builder = globset_builder_new();
        let mut i: usize = 0;
        while i < rules.len()
            invariant
                i <= rules@.len(),
                rvs == rules.deep_view(),
                rvs == spec_rules_of(raw_rules.deep_view()),
                builder_globs(builder) == rule_pairs(rvs.take(i as int)),
                forall|j: int|
                    0 <= j < i ==> glob_build_ok(rvs[j].pattern, rvs[j].anchored),
            decreases rules@.len() - i,
        {
            proof {
                assert(rules@[i as int]@ == rvs[i as int]);
            }
            match glob_new(&rules[i].pattern, rules[i].anchored) {
                Some(g) => {
                    globset_builder_add(&mut builder, g);
                    proof {
                        assert(rule_pairs(rvs.take(i + 1)) =~= rule_pairs(rvs.take(i as int)).push(
                            (rvs[i as int].pattern, rvs[i as int].anchored),
                        ));
                    }
                },
                None => {
                    return Err(CompileError::InvalidGlob(i));
                },
            }
            i += 1;
        }
        proof {
            assert(rvs.take(rvs.len() as int) =~= rvs);
        }
        match globset_builder_build(&builder) {
            Some(tester) => {
                let rs = RuleSet { root: root_vec, rules, tester };
                proof {
                    assert(rs@ =~~= spec_build(root@, lines));
                }
                Ok(rs)
            },
            None => Err(CompileError::SetBuild),
        }
    }

    /// Check whether the given path, queried as a directory or not, is
    /// ignored under this ruleset: the result is exactly the last-rule-
    /// wins scan that `spec_is_ignored` describes.
    pub fn is_ignored(&self, path: &str, is_dir: bool) -> (r: bool)
        ensures
            r == spec_is_ignored(self@, path@, is_dir),
    {
        proof {
            use_type_invariant(&*self);
        }
        let path_chars = str_chars(path);
        let stripped = strip_dot_slash_vec(path_chars);
        let np = strip_root_vec(&self.root, stripped);
        proof {
            assert(np@ == spec_normalize(self@.root, path@));
        }
        let ghost rvs = self@.rules;
        let idxs = globset_matches(&self.tester, &np);
        let n = self.rules.len();
        proof {
            assert(globset_globs(self.tester).len() == n);
            assert forall|i: int| 0 <= i < n implies (idxs@.contains(i as usize) <==> glob_matches(
                rvs[i].pattern,
                rvs[i].anchored,
                np@,
            )) by {
                assert(globset_globs(self.tester)[i] == (rvs[i].pattern, rvs[i].anchored));
            }
        }
        let mut matched: Vec<bool> = Vec::new();
        let mut t: usize = 0;
        while t < n
            invariant
                matched@.len() == t <= n,
                forall|k: int| 0 <= k < t ==> matched@[k] == false,
            decreases n - t,
        {
            matched.push(false);
            t += 1;
        }
        let mut k: usize = 0;
        while k < idxs.len()
            invariant
                k <= idxs@.len(),
                matched@.len() == n,
                forall|j: int| 0 <= j < idxs@.len() ==> idxs@[j] < n,
                forall|i: int|
                    0 <= i < n ==> (matched@[i] <==> (exists|j: int|
                        0 <= j < k && idxs@[j] == i as usize)),
            decreases idxs@.len() - k,
        {
            let id = idxs[k];
            let ghost old_matched = matched@;
            matched.set(id, true);
            proof {
                assert forall|i: int|
                    0 <= i < n implies (matched@[i] <==> (exists|j: int|
                    0 <= j < k + 1 && idxs@[j] == i as usize)) by {
                    if i == id as int {
                        assert(idxs@[k as int] == i as usize);
                    } else {
                        assert(matched@[i] == old_matched[i]);
                    }
                }
            }
            k += 1;
        }
        proof {
            assert forall|i: int|
                0 <= i < n implies (matched@[i] <==> glob_matches(
                rvs[i].pattern,
                rvs[i].anchored,
                np@,
            )) by {
                assert(matched@[i] <==> idxs@.contains(i as usize));
            }
        }
        let mut j = n;
        while j > 0
            invariant
                j <= n,
                n == rvs.len(),
                matched@.len() == n,
                rvs == self@.rules,
                np@ == spec_normalize(self@.root, path@),
                forall|i: int|
                    0 <= i < n ==> (matched@[i] <==> glob_matches(
                        rvs[i].pattern,
                        rvs[i].anchored,
                        np@,
                    )),
                ignored_from(rvs, np@, is_dir, n as int - 1) == ignored_from(
                    rvs,
                    np@,
                    is_dir,
                    j as int - 1,
                ),
            decreases j,
        {
            j -= 1;
            if matched[j] {
                let rule = &self.rules[j];
                proof {
                    assert(self.rules@[j as int]@ == rvs[j as int]);
                }
                if is_dir || !rule.dir_only {
                    return !rule.negation;
                }
            }
        }
        false
    }
}

/// Build a ruleset from a root path and one newline-delimited block of
/// pattern text; the block is split on `\n` and handed to `RuleSet::new`,
/// so it succeeds exactly when building from the split lines does.
pub fn load_str(root: &str, content: &str) -> (r: Result<RuleSet, CompileError>)
    ensures
        ({
            let v = spec_build(root@, spec_split_lines(content@));
            &&& (r is Ok <==> spec_compiles(v.rules))
            &&& (v.rules.len() == 0 ==> r is Ok)
            &&& (r matches Ok(rs) ==> rs@ == v)
            &&& (r matches Err(CompileError::InvalidGlob(j)) ==> j < v.rules.len()
                && !glob_build_ok(v.rules[j as int].pattern, v.rules[j as int].anchored) && (
            forall|i: int| 0 <= i < j ==> glob_build_ok(v.rules[i].pattern, v.rules[i].anchored)))
            &&& (r matches Err(CompileError::SetBuild) ==> !set_build_ok(rule_pairs(v.rules)) && (
            forall|i: int|
                0 <= i < v.rules.len() ==> glob_build_ok(v.rules[i].pattern, v.rules[i].anchored)))
        }),
{
    let lines = split_lines(content);
    proof {
        assert(lines.deep_view() == spec_split_lines(content@));
    }
    RuleSet::new(root, lines)
}

/// What splitting a block of text on `\n` yields: the delimiter is not
/// kept, an empty block yields one empty line, and a trailing `\n`
/// yields a trailing empty line.
pub open spec fn spec_split_lines(s: Seq<char>) -> Seq<Seq<char>>
    decreases s.len(),
{
    if s.len() == 0 {
        seq![Seq::<char>::empty()]
    } else {
        let rest = spec_split_lines(s.drop_last());
        let c = s[s.len() - 1];
        if c == '\n' {
            rest.push(Seq::empty())
        } else {
            rest.update(rest.len() - 1, rest.last().push(c))
        }
    }
}

proof fn lemma_split_lines_nonempty(s: Seq<char>)
    ensures
        spec_split_lines(s).len() >= 1,
    decreases s.len(),
{
    if s.len() > 0 {
        lemma_split_lines_nonempty(s.drop_last());
    }
}

/// Split a block of text on `\n` into its lines.
fn split_lines(content: &str) -> (r: Vec<&str>)
    ensures
        r.deep_view() == spec_split_lines(content@),
{
    let v = str_chars(content);
    let n = v.len();
    let mut r: Vec<&str> = Vec::new();
    let mut start: usize = 0;
    let mut i: usize = 0;
    proof {
        assert(spec_split_lines(v@.take(0)) =~~= r.deep_view().push(v@.subrange(0, 0)));
    }
    while i < n
        invariant
            start <= i <= n,
            n == v@.len(),
            v@ == content@,
            spec_split_lines(v@.take(i as int)) =~~= r.deep_view().push(
                v@.subrange(start as int, i as int),
            ),
        decreases n - i,
    {
        proof {
            assert(v@.take(i + 1).drop_last() =~= v@.take(i as int));
            assert(v@.take(i + 1).last() == v@[i as int]);
            lemma_split_lines_nonempty(v@.take(i as int));
        }
        if v[i] == '\n' {
            let line = content.substring_char(start, i);
            let ghost old_dv = r.deep_view();
            r.push(line);
            proof {
                assert(r.deep_view() =~~= old_dv.push(line@));
                assert(spec_split_lines(v@.take(i + 1)) =~~= r.deep_view().push(
                    v@.subrange(i + 1, i + 1),
                ));
            }
            start = i + 1;
        } else {
            proof {
                let prev = spec_split_lines(v@.take(i as int));
                assert(spec_split_lines(v@.take(i + 1)) =~~= prev.update(
                    prev.len() - 1,
                    prev.last().push(v@[i as int]),
                ));
                assert(prev.last() == v@.subrange(start as int, i as int));
                assert(v@.subrange(start as int, i + 1) =~= v@.subrange(start as int, i as int).push(
                    v@[i as int],
                ));
                assert(spec_split_lines(v@.take(i + 1)) =~~= r.deep_view().push(
                    v@.subrange(start as int, i + 1),
                ));
            }
        }
        i += 1;
    }
    let last = content.substring_char(start, n);
    let ghost old_dv = r.deep_view();
    r.push(last);
    proof {
        assert(v@.take(n as int) =~= v@);
        assert(r.deep_view() =~~= old_dv.push(last@));
        assert(r.deep_view() =~~= spec_split_lines(content@));
    }
    r
}

/// An empty ruleset ignores nothing: with no rules, `is_ignored` is
/// `false` for every path and every `is_dir` value.
pub proof fn lemma_empty_ruleset_ignores_nothing(v: RuleSetV, path: Seq<char>, is_dir: bool)
    requires
        v.rules.len() == 0,
    ensures
        !spec_is_ignored(v, path, is_dir),
{
}

/// Building twice from identical root and pattern lines yields rulesets
/// that answer every `is_ignored` query identically.
pub proof fn lemma_build_deterministic(
    root: Seq<char>,
    lines: Seq<Seq<char>>,
    a: RuleSetV,
    b: RuleSetV,
)
    requires
        a == spec_build(root, lines),
        b == spec_build(root, lines),
    ensures
        forall|path: Seq<char>, is_dir: bool|
            spec_is_ignored(a, path, is_dir) == spec_is_ignored(b, path, is_dir),
{
}

} // verus!
