//! The trusted boundary around the `globset` crate: the compiled glob
//! matcher used by the rule set.
//!
//! Whether a glob pattern compiles, and whether it matches a path, are
//! functions of the pattern text, the `literal_separator` option and the
//! path text alone; they are named here by uninterpreted spec functions,
//! and every contract of the library speaks of glob matching through
//! those names. Paths and patterns are taken byte-for-byte, as on
//! platforms where `/` is the only path separator.

use vstd::prelude::*;

verus! {

#[verifier::external_type_specification]
#[verifier::external_body]
pub struct ExGlob(globset::Glob);

#[verifier::external_type_specification]
#[verifier::external_body]
pub struct ExGlobSet(globset::GlobSet);

#[verifier::external_type_specification]
#[verifier::external_body]
pub struct ExGlobSetBuilder(globset::GlobSetBuilder);

/// Whether `globset` accepts `pattern` as a syntactically valid glob
/// when built with the given `literal_separator` option.
pub uninterp spec fn glob_build_ok(pattern: Seq<char>, literal_separator: bool) -> bool;

/// Whether the glob `pattern`, built with the given `literal_separator`
/// option, matches `path`.
pub uninterp spec fn glob_matches(pattern: Seq<char>, literal_separator: bool, path: Seq<char>) -> bool;

/// The pattern text a compiled glob was built from.
pub uninterp spec fn glob_pattern(g: globset::Glob) -> Seq<char>;

/// The `literal_separator` option a compiled glob was built with.
pub uninterp spec fn glob_literal_separator(g: globset::Glob) -> bool;

/// The (pattern, literal_separator) pairs added to a glob-set builder,
/// in order.
pub uninterp spec fn builder_globs(b: globset::GlobSetBuilder) -> Seq<(Seq<char>, bool)>;

/// The (pattern, literal_separator) pairs a compiled glob set holds,
/// in order.
pub uninterp spec fn globset_globs(s: globset::GlobSet) -> Seq<(Seq<char>, bool)>;

/// Whether assembling a combined matcher from the given globs
/// succeeds: a function of the (pattern, literal_separator) pairs
/// alone.
pub uninterp spec fn set_build_ok(globs: Seq<(Seq<char>, bool)>) -> bool;

/// Relies on globset::GlobSetBuilder::new: a fresh builder holds no globs.
#[verifier::external_body]
pub(crate) fn globset_builder_new() -> (b: globset::GlobSetBuilder)
    ensures
        builder_globs(b) == Seq::<(Seq<char>, bool)>::empty(),
{
    globset::GlobSetBuilder::new()
}

/// Relies on globset::GlobBuilder::{new, literal_separator, build}:
/// parsing is deterministic in the pattern and the option, and the
/// compiled glob records both.
#[verifier::external_body]
pub(crate) fn glob_new(pattern: &Vec<char>, literal_separator: bool) -> (r: Option<globset::Glob>)
    ensures
        r is Some <==> glob_build_ok(pattern@, literal_separator),
        r matches Some(g) ==> glob_pattern(g) == pattern@ && glob_literal_separator(g)
            == literal_separator,
{
    let pat: String = pattern.iter().collect();
    let mut b = globset::GlobBuilder::new(&pat);
    b.literal_separator(literal_separator);
    b.build().ok()
}

/// Relies on globset::GlobSetBuilder::add: it appends the glob to the
/// builder's pattern list.
#[verifier::external_body]
pub(crate) fn globset_builder_add(b: &mut globset::GlobSetBuilder, g: globset::Glob)
    ensures
        builder_globs(*final(b)) == builder_globs(*old(b)).push(
            (glob_pattern(g), glob_literal_separator(g)),
        ),
{
    b.add(g);
}

/// Relies on globset::GlobSetBuilder::build: whether the combined
/// matcher assembles is decided by the added globs alone, it always
/// assembles when no glob was added, and on success the compiled set
/// holds exactly the added globs, in order.
#[verifier::external_body]
pub(crate) fn globset_builder_build(b: &globset::GlobSetBuilder) -> (r: Option<globset::GlobSet>)
    ensures
        r is Some <==> set_build_ok(builder_globs(*b)),
        builder_globs(*b).len() == 0 ==> r is Some,
        r matches Some(s) ==> globset_globs(s) == builder_globs(*b),
{
    b.build().ok()
}

/// Relies on globset::GlobSet::matches: the result holds the sequence
/// number of every glob of the set that matches the path, and no other.
#[verifier::external_body]
pub(crate) fn globset_matches(s: &globset::GlobSet, path: &Vec<char>) -> (r: Vec<usize>)
    ensures
        forall|j: int| 0 <= j < r@.len() ==> r@[j] < globset_globs(*s).len(),
        forall|i: int|
            0 <= i < globset_globs(*s).len() ==> (r@.contains(i as usize) <==> glob_matches(
                globset_globs(*s)[i].0,
                globset_globs(*s)[i].1,
                path@,
            )),
{
    let p: String = path.iter().collect();
    s.matches(&p)
}

} // verus!
