//! Project-level helpers around the rule engine: the error type for a
//! missing project directory, the shape of an ignore query's answer,
//! the directory heuristic for unresolved paths, and the assembly of
//! ignore-pattern text blocks into a ruleset.

use vstd::prelude::*;
use vstd::string::StringExecFns;

use crate::ruleset::{
    load_str, spec_clean_root, spec_compiles, spec_parse_line, spec_rules_of, spec_split_lines,
    RuleSet, RuleV,
};
use crate::text::str_chars;

verus! {

/// Why a project could not be opened.
#[derive(Debug)]
pub enum ProjectError {
    /// The given directory does not exist.
    NotFound(String),
}

impl ProjectError {
    /// The error's text.
    pub fn message(&self) -> (r: String)
        ensures
            match self {
                ProjectError::NotFound(d) => r@ == "Directory "@ + d@ + " Cannot be found!"@,
            },
    {
        match self {
            ProjectError::NotFound(d) => {
                let s = String::from_str("Directory ");
                let s = s.concat(d.as_str());
                s.concat(" Cannot be found!")
            },
        }
    }
}

/// The answer to an ignore query on a project path: whether the path
/// exists, whether it was taken to be a directory, and whether it is
/// ignored.
#[derive(Debug, Clone, Copy, PartialEq, Eq)]
pub struct IsIgnored {
    /// Whether the path exists on disk.
    pub exists: bool,
    /// Whether the path was treated as a directory.
    pub is_dir: bool,
    /// Whether the ruleset ignores the path.
    pub is_ignored: bool,
}

/// An ASCII word character: a letter, a digit or `_`.
pub open spec fn spec_is_word_char(c: char) -> bool {
    ('a' <= c && c <= 'z') || ('A' <= c && c <= 'Z') || ('0' <= c && c <= '9') || c == '_'
}

/// Whether the path text ends in a dot followed by exactly two word
/// characters, the shape of a two-letter file extension.
pub open spec fn spec_has_two_letter_ext(p: Seq<char>) -> bool {
    p.len() >= 3 && p[p.len() - 3] == '.' && spec_is_word_char(p[p.len() - 2]) && spec_is_word_char(
        p[p.len() - 1],
    )
}

fn is_word_char(c: char) -> (r: bool)
    ensures
        r == spec_is_word_char(c),
{
    ('a' <= c && c <= 'z') || ('A' <= c && c <= 'Z') || ('0' <= c && c <= '9') || c == '_'
}

/// Guess whether an unresolved path names a directory: a path without a
/// trailing two-letter extension is taken to be one. The guess is a
/// heuristic for callers that cannot consult the filesystem; word
/// characters are the ASCII letters, digits and `_`.
pub fn guess_is_dir(path: &str) -> (r: bool)
    ensures
        r == !spec_has_two_letter_ext(path@),
{
    let v = str_chars(path);
    let n = v.len();
    if n < 3 {
        return true;
    }
    !(v[n - 3] == '.' && is_word_char(v[n - 2]) && is_word_char(v[n - 1]))
}

/// What extending stored ignore text yields: the existing blocks are
/// kept only when both present and requested, and the new text is
/// appended as one more block behind a newline and a space.
pub open spec fn spec_append_gitignore(
    existing: Option<Seq<Seq<char>>>,
    git_str: Seq<char>,
    update_existing: bool,
) -> Seq<Seq<char>> {
    (match existing {
        Some(g) => if update_existing {
            g
        } else {
            Seq::empty()
        },
        None => Seq::empty(),
    }).push("\n "@ + git_str)
}

fn copy_strings(g: &Vec<String>) -> (r: Vec<String>)
    ensures
        r.deep_view() == g.deep_view(),
{
    let mut r: Vec<String> = Vec::new();
    let mut i: usize = 0;
    while i < g.len()
        invariant
            i <= g@.len(),
            r@.len() == i,
            forall|k: int| 0 <= k < i ==> r@[k] == g@[k],
        decreases g@.len() - i,
    {
        let x = g[i].clone();
        r.push(x);
        i += 1;
    }
    proof {
        assert(r.deep_view() =~~= g.deep_view());
    }
    r
}

/// Extend stored ignore text with one more block of rules: when
/// `update_existing` is set the existing blocks are kept, otherwise
/// they are discarded; either way the new text is appended as a block
/// of its own.
pub fn append_gitignore(existing: &Option<Vec<String>>, git_str: &str, update_existing: bool) -> (r:
    Vec<String>)
    ensures
        r.deep_view() == spec_append_gitignore(
            match existing {
                Some(g) => Some(g.deep_view()),
                None => None,
            },
            git_str@,
            update_existing,
        ),
{
    let mut out: Vec<String> = match existing {
        Some(g) => if update_existing {
            copy_strings(g)
        } else {
            Vec::new()
        },
        None => Vec::new(),
    };
    let block = String::from_str("\n ").concat(git_str);
    out.push(block);
    proof {
        assert(out.deep_view() =~~= spec_append_gitignore(
            match existing {
                Some(g) => Some(g.deep_view()),
                None => None,
            },
            git_str@,
            update_existing,
        ));
    }
    out
}

/// What joining text blocks with one blank line between them yields.
pub open spec fn spec_join_blank(ts: Seq<Seq<char>>) -> Seq<char>
    decreases ts.len(),
{
    if ts.len() == 0 {
        Seq::empty()
    } else if ts.len() == 1 {
        ts[0]
    } else {
        spec_join_blank(ts.drop_last()) + "\n\n"@ + ts.last()
    }
}

/// Join text blocks into one, separated by a blank line.
pub fn join_with_blank_lines(texts: &Vec<String>) -> (r: String)
    ensures
        r@ == spec_join_blank(texts.deep_view()),
{
    let ghost dv = texts.deep_view();
    let mut s = String::new();
    let mut i: usize = 0;
    while i < texts.len()
        invariant
            i <= texts@.len(),
            dv == texts.deep_view(),
            s@ == spec_join_blank(dv.take(i as int)),
        decreases texts@.len() - i,
    {
        proof {
            assert(dv.take(i + 1).drop_last() =~= dv.take(i as int));
            assert(dv.take(i + 1).last() == texts@[i as int]@);
        }
        if i > 0 {
            s.append("\n\n");
        }
        s.append(texts[i].as_str());
        proof {
            if i == 0 {
                assert(s@ =~= dv.take(1)[0]);
            }
        }
        i += 1;
    }
    proof {
        assert(dv.take(dv.len() as int) =~= dv);
    }
    s
}

/// The always-constructible permissive ruleset: built from one empty
/// line, it holds no rules and ignores nothing, and building it never
/// fails.
pub fn empty_ruleset(root: &str) -> (rs: RuleSet)
    ensures
        rs@.root == spec_clean_root(root@),
        rs@.rules == Seq::<RuleV>::empty(),
{
    let mut lines: Vec<&str> = Vec::new();
    lines.push("");
    proof {
        reveal_strlit("");
        let e = Seq::<char>::empty();
        assert(""@ =~= e);
        assert(lines.deep_view() =~= seq![e]);
        assert(seq![e].drop_last() =~= Seq::<Seq<char>>::empty());
        assert(spec_rules_of(Seq::<Seq<char>>::empty()) =~= Seq::<RuleV>::empty());
        assert(crate::text::spec_trim_start(e) == e);
        assert(crate::text::spec_trim_end(e) == e);
        assert(spec_parse_line(e) is Empty);
        assert(seq![e].last() == e);
        assert(spec_rules_of(seq![e]) =~= Seq::<RuleV>::empty());
    }
    match RuleSet::new(root, lines) {
        Ok(rs) => rs,
        Err(_) => vstd::pervasive::unreached(),
    }
}

/// Build the project's ruleset from its stored ignore text: the blocks
/// are joined with blank lines and compiled; when the text compiles the
/// result holds exactly its rules, and when there is no text, or the
/// text does not compile, the permissive empty ruleset stands in.
/// Building never fails.
pub fn rules_for_gitignore(root: &str, gitignore: &Option<Vec<String>>) -> (rs: RuleSet)
    ensures
        rs@.root == spec_clean_root(root@),
        rs@.rules == (match gitignore {
            Some(g) => ({
                let built = spec_rules_of(spec_split_lines(spec_join_blank(g.deep_view())));
                if spec_compiles(built) {
                    built
                } else {
                    Seq::<RuleV>::empty()
                }
            }),
            None => Seq::<RuleV>::empty(),
        }),
{
    match gitignore {
        Some(g) => {
            let content = join_with_blank_lines(g);
            match load_str(root, content.as_str()) {
                Ok(rs) => rs,
                Err(_) => empty_ruleset(root),
            }
        },
        None => empty_ruleset(root),
    }
}

} // verus!