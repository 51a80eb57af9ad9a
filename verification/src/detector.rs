//! Project-language detection: marker-file matchers, the table of
//! known languages, and lookup of ignore-template text by language key.

use vstd::prelude::*;
use vstd::string::StrSliceExecFns;

use crate::text::str_chars;

verus! {

/// The data a directory entry exposes to detection: its name, its
/// extension, and whether it is a file.
#[verifier::ext_equal]
pub ghost struct EntryV {
    pub file_name: Seq<char>,
    pub extension: Option<Seq<char>>,
    pub is_file: bool,
}

/// The minimal capability a detector needs of a directory entry.
/// Detection logic runs against any implementation, real or synthetic.
pub trait DirEntry {
    /// The entry's data, for specifications.
    spec fn entry_view(&self) -> EntryV;

    /// The entry's file name.
    fn file_name(&self) -> (r: String)
        ensures
            r@ == self.entry_view().file_name,
    ;

    /// The entry's extension, if it has one.
    fn extension(&self) -> (r: Option<String>)
        ensures
            r.deep_view() == self.entry_view().extension,
    ;

    /// Whether the entry is a file.
    fn is_file(&self) -> (r: bool)
        ensures
            r == self.entry_view().is_file,
    ;
}

/// A synthetic directory entry, holding its data directly.
pub struct FakeDirEntry {
    file_name: String,
    extension: Option<String>,
    is_file: bool,
}

impl FakeDirEntry {
    /// Make a synthetic entry from its parts.
    pub fn new(file_name: &str, extension: Option<&str>, is_file: bool) -> (r: FakeDirEntry)
        ensures
            r.entry_view() == (EntryV {
                file_name: file_name@,
                extension: match extension {
                    Some(e) => Some(e@),
                    None => None,
                },
                is_file,
            }),
    {
        let ext: Option<String> = match extension {
            Some(e) => Some(e.to_owned()),
            None => None,
        };
        FakeDirEntry { file_name: file_name.to_owned(), extension: ext, is_file }
    }
}

impl DirEntry for FakeDirEntry {
    closed spec fn entry_view(&self) -> EntryV {
        EntryV {
            file_name: self.file_name@,
            extension: self.extension.deep_view(),
            is_file: self.is_file,
        }
    }

    fn file_name(&self) -> (r: String) {
        self.file_name.clone()
    }

    fn extension(&self) -> (r: Option<String>) {
        match &self.extension {
            Some(e) => Some(e.clone()),
            None => None,
        }
    }

    fn is_file(&self) -> (r: bool) {
        self.is_file
    }
}

/// The mathematical value of a marker-file matcher.
#[verifier::ext_equal]
pub ghost enum MatcherV {
    ByFileExtension(Seq<char>),
    ByFileName(Seq<char>),
}

/// A marker-file matcher: an entry matches by exact file name, or by
/// extension.
pub enum Matcher {
    /// Match a file whose extension equals the given text.
    ByFileExtension(String),
    /// Match a file whose name equals the given text.
    ByFileName(String),
}

impl View for Matcher {
    type V = MatcherV;

    open spec fn view(&self) -> MatcherV {
        match self {
            Matcher::ByFileExtension(e) => MatcherV::ByFileExtension(e@),
            Matcher::ByFileName(n) => MatcherV::ByFileName(n@),
        }
    }
}

impl DeepView for Matcher {
    type V = MatcherV;

    open spec fn deep_view(&self) -> MatcherV {
        self.view()
    }
}

/// Whether a matcher accepts an entry: the entry must be a file, and
/// its name (or extension) must equal the matcher's text.
pub open spec fn spec_matcher_matches(m: MatcherV, e: EntryV) -> bool {
    match m {
        MatcherV::ByFileName(name) => e.is_file && e.file_name == name,
        MatcherV::ByFileExtension(ext) => e.is_file && e.extension == Some(ext),
    }
}

impl Matcher {
    /// A matcher on the file extension.
    pub fn by_file_extension(extension: &str) -> (m: Matcher)
        ensures
            m@ == MatcherV::ByFileExtension(extension@),
    {
        Matcher::ByFileExtension(extension.to_owned())
    }

    /// A matcher on the exact file name.
    pub fn by_file_name(name: &str) -> (m: Matcher)
        ensures
            m@ == MatcherV::ByFileName(name@),
    {
        Matcher::ByFileName(name.to_owned())
    }

    /// Whether this matcher accepts the entry.
    pub fn matches<E: DirEntry>(&self, entry: &E) -> (r: bool)
        ensures
            r == spec_matcher_matches(self@, entry.entry_view()),
    {
        match self {
            Matcher::ByFileName(name) => {
                if !entry.is_file() {
                    return false;
                }
                let fname = entry.file_name();
                fname == *name
            },
            Matcher::ByFileExtension(extension) => {
                if !entry.is_file() {
                    return false;
                }
                match entry.extension() {
                    Some(e) => e == *extension,
                    None => false,
                }
            },
        }
    }
}

/// The mathematical value of one language detector: its template key
/// and its marker matchers.
#[verifier::ext_equal]
pub ghost struct DetectorV {
    pub template: Seq<char>,
    pub matchers: Seq<MatcherV>,
}

/// One language detector: a template key plus the marker-file matchers
/// that reveal the language.
struct Detector {
    template: String,
    matchers: Vec<Matcher>,
}

impl View for Detector {
    type V = DetectorV;

    closed spec fn view(&self) -> DetectorV {
        DetectorV { template: self.template@, matchers: self.matchers.deep_view() }
    }
}

impl DeepView for Detector {
    type V = DetectorV;

    closed spec fn deep_view(&self) -> DetectorV {
        self.view()
    }
}

/// Whether a detector fires on a set of entries: some matcher accepts
/// some entry.
pub open spec fn spec_detector_hits(d: DetectorV, entries: Seq<EntryV>) -> bool {
    exists|i: int, j: int|
        0 <= i < d.matchers.len() && 0 <= j < entries.len() && spec_matcher_matches(
            d.matchers[i],
            entries[j],
        )
}

impl Detector {
    /// A detector from its template key and matchers.
    fn new(template: &str, matchers: Vec<Matcher>) -> (d: Detector)
        ensures
            d@ == (DetectorV { template: template@, matchers: matchers.deep_view() }),
    {
        Detector { template: template.to_owned(), matchers }
    }

    /// The template key, if some matcher accepts some entry.
    fn detects<E: DirEntry>(&self, entries: &Vec<E>) -> (r: Option<String>)
        ensures
            r matches Some(s) ==> s@ == self@.template && spec_detector_hits(
                self@,
                entry_views(entries@),
            ),
            r is None ==> !spec_detector_hits(self@, entry_views(entries@)),
    {
        let ghost evs = entry_views(entries@);
        let mut i: usize = 0;
        while i < self.matchers.len()
            invariant
                i <= self.matchers@.len(),
                evs == entry_views(entries@),
                forall|mi: int, ej: int|
                    0 <= mi < i && 0 <= ej < evs.len() ==> !spec_matcher_matches(
                        self@.matchers[mi],
                        evs[ej],
                    ),
            decreases self.matchers@.len() - i,
        {
            let m = &self.matchers[i];
            let mut j: usize = 0;
            while j < entries.len()
                invariant
                    i < self.matchers@.len(),
                    j <= entries@.len(),
                    evs == entry_views(entries@),
                    m == &self.matchers[i as int],
                    forall|ej: int|
                        0 <= ej < j ==> !spec_matcher_matches(self@.matchers[i as int], evs[ej]),
                decreases entries@.len() - j,
            {
                if m.matches(&entries[j]) {
                    proof {
                        assert(spec_matcher_matches(self@.matchers[i as int], evs[j as int]));
                    }
                    return Some(self.template.clone());
                }
                j += 1;
            }
            i += 1;
        }
        None
    }
}

/// The entry data of each element of a sequence of directory entries.
pub open spec fn entry_views<E: DirEntry>(es: Seq<E>) -> Seq<EntryV> {
    Seq::new(es.len(), |i: int| es[i].entry_view())
}

/// The template keys of the detectors that fire on the entries, in
/// table order.
pub open spec fn spec_detects_templates(ds: Seq<DetectorV>, entries: Seq<EntryV>) -> Seq<Seq<char>>
    decreases ds.len(),
{
    if ds.len() == 0 {
        Seq::empty()
    } else {
        spec_detects_templates(ds.drop_last(), entries) + (if spec_detector_hits(
            ds.last(),
            entries,
        ) {
            seq![ds.last().template]
        } else {
            Seq::<Seq<char>>::empty()
        })
    }
}

/// The table of language detectors.
pub struct Detectors {
    detectors: Vec<Detector>,
}

impl View for Detectors {
    type V = Seq<DetectorV>;

    closed spec fn view(&self) -> Seq<DetectorV> {
        self.detectors.deep_view()
    }
}

impl Detectors {
    /// The template keys of every detector of this table that fires on
    /// the given entries, in table order.
    pub fn detects<E: DirEntry>(&self, entries: &Vec<E>) -> (r: Vec<String>)
        ensures
            r.deep_view() == spec_detects_templates(self@, entry_views(entries@)),
    {
        let mut r: Vec<String> = Vec::new();
        let mut i: usize = 0;
        while i < self.detectors.len()
            invariant
                i <= self.detectors@.len(),
                r.deep_view() == spec_detects_templates(self@.take(i as int), entry_views(entries@)),
            decreases self.detectors@.len() - i,
        {
            proof {
                assert(self@.take(i + 1).drop_last() =~= self@.take(i as int));
                assert(self@.take(i + 1).last() == self.detectors@[i as int]@);
            }
            let ghost old_dv = r.deep_view();
            let d = &self.detectors[i];
            match d.detects(entries) {
                Some(template) => {
                    r.push(template);
                    proof {
                        assert(r.deep_view() =~~= old_dv.push(self@[i as int].template));
                        assert(r.deep_view() =~~= spec_detects_templates(
                            self@.take(i + 1),
                            entry_views(entries@),
                        ));
                    }
                },
                None => {
                    proof {
                        assert(r.deep_view() =~~= spec_detects_templates(
                            self@.take(i + 1),
                            entry_views(entries@),
                        ));
                    }
                },
            }
            i += 1;
        }
        proof {
            assert(self@.take(self@.len() as int) =~= self@);
        }
        r
    }
}

/// The table of known languages: each detector's template key and the
/// marker files (by name or extension) that reveal the language.
pub open spec fn spec_default_detectors() -> Seq<DetectorV> {
    seq![
        DetectorV { template: "crystal"@, matchers: seq![MatcherV::ByFileName("shard.yml"@)] },
        DetectorV {
            template: "dart"@,
            matchers: seq![
                MatcherV::ByFileName("pubspec.yaml"@),
                MatcherV::ByFileName("pubspec.yml"@),
                MatcherV::ByFileName("pubspec.lock"@),
            ],
        },
        DetectorV { template: "elixir"@, matchers: seq![MatcherV::ByFileName("mix.exs"@)] },
        DetectorV {
            template: "elm"@,
            matchers: seq![
                MatcherV::ByFileName("elm.json"@),
                MatcherV::ByFileName("elm-package.json"@),
                MatcherV::ByFileName(".elm-version"@),
            ],
        },
        DetectorV {
            template: "erlang"@,
            matchers: seq![
                MatcherV::ByFileName("rebar.config"@),
                MatcherV::ByFileName("erlang.mk"@),
            ],
        },
        DetectorV {
            template: "haskell"@,
            matchers: seq![
                MatcherV::ByFileExtension("cabal"@),
                MatcherV::ByFileName("stack.yaml"@),
                MatcherV::ByFileName("Setup.hs"@),
            ],
        },
        DetectorV {
            template: "go"@,
            matchers: seq![
                MatcherV::ByFileName("go.mod"@),
                MatcherV::ByFileName("go.sum"@),
                MatcherV::ByFileName("glide.yaml"@),
                MatcherV::ByFileName("Gopkg.yml"@),
                MatcherV::ByFileName("Gopkg.lock"@),
                MatcherV::ByFileName(".go-version"@),
            ],
        },
        DetectorV {
            template: "java"@,
            matchers: seq![
                MatcherV::ByFileName("build.gradle"@),
                MatcherV::ByFileName("pom.xml"@),
                MatcherV::ByFileName("build.gradle.kts"@),
                MatcherV::ByFileName("build.sbt"@),
                MatcherV::ByFileName(".java.version"@),
                MatcherV::ByFileName("deps.edn"@),
                MatcherV::ByFileName("project.clj"@),
                MatcherV::ByFileName("build.boot"@),
            ],
        },
        DetectorV {
            template: "julia"@,
            matchers: seq![
                MatcherV::ByFileName("Project.toml"@),
                MatcherV::ByFileName("Manifest.toml"@),
            ],
        },
        DetectorV { template: "nim"@, matchers: seq![MatcherV::ByFileName("nim.cfg"@)] },
        DetectorV {
            template: "node"@,
            matchers: seq![
                MatcherV::ByFileName("package.json"@),
                MatcherV::ByFileName(".node-version"@),
                MatcherV::ByFileName(".nvmrc"@),
            ],
        },
        DetectorV {
            template: "ocaml"@,
            matchers: seq![
                MatcherV::ByFileName("dune"@),
                MatcherV::ByFileName("dune-project"@),
                MatcherV::ByFileName("jbuild"@),
                MatcherV::ByFileName("jbuild-ignore"@),
                MatcherV::ByFileName(".merlin"@),
                MatcherV::ByFileExtension("opam"@),
            ],
        },
        DetectorV {
            template: "perl"@,
            matchers: seq![
                MatcherV::ByFileName("Makefile.PL"@),
                MatcherV::ByFileName("Build.PL"@),
                MatcherV::ByFileName("cpanfile"@),
                MatcherV::ByFileName("cpanfile.snapshot"@),
                MatcherV::ByFileName("META.json"@),
                MatcherV::ByFileName("META.yml"@),
                MatcherV::ByFileName(".perl-version"@),
            ],
        },
        DetectorV {
            template: "composer"@,
            matchers: seq![
                MatcherV::ByFileName("composer.json"@),
                MatcherV::ByFileName(".php-version"@),
            ],
        },
        DetectorV {
            template: "purescript"@,
            matchers: seq![
                MatcherV::ByFileName("spago.dhall"@),
                MatcherV::ByFileName("packages.dhall"@),
            ],
        },
        DetectorV {
            template: "python"@,
            matchers: seq![
                MatcherV::ByFileName("requirements.txt"@),
                MatcherV::ByFileName(".python-version"@),
                MatcherV::ByFileName("pyproject.toml"@),
                MatcherV::ByFileName("Pipfile"@),
                MatcherV::ByFileName("tox.ini"@),
                MatcherV::ByFileName("setup.py"@),
                MatcherV::ByFileName("__init__.py"@),
            ],
        },
        DetectorV { template: "r"@, matchers: seq![MatcherV::ByFileName(".Rprofile"@)] },
        DetectorV {
            template: "ruby"@,
            matchers: seq![
                MatcherV::ByFileExtension("gemspec"@),
                MatcherV::ByFileName("Gemfile"@),
                MatcherV::ByFileName(".ruby-version"@),
            ],
        },
        DetectorV { template: "rust"@, matchers: seq![MatcherV::ByFileName("Cargo.toml"@)] },
        DetectorV {
            template: "scala"@,
            matchers: seq![
                MatcherV::ByFileName(".scalaenv"@),
                MatcherV::ByFileName(".sbtenv"@),
                MatcherV::ByFileName("build.sbt"@),
            ],
        },
        DetectorV { template: "swift"@, matchers: seq![MatcherV::ByFileName("Package.swift"@)] },
        DetectorV { template: "zig"@, matchers: seq![MatcherV::ByFileExtension("zig"@)] },
    ]
}

impl Default for Detectors {
    /// The full table of known languages and their marker files.
    #[verifier::rlimit(100)]
    fn default() -> (d: Detectors)
        ensures
            d@ == spec_default_detectors(),
    {
        let mut ds: Vec<Detector> = Vec::new();
        let mut ms: Vec<Matcher> = Vec::new();
        ms.push(Matcher::by_file_name("shard.yml"));
        ds.push(Detector::new("crystal", ms));
        let mut ms: Vec<Matcher> = Vec::new();
        ms.push(Matcher::by_file_name("pubspec.yaml"));
        ms.push(Matcher::by_file_name("pubspec.yml"));
        ms.push(Matcher::by_file_name("pubspec.lock"));
        ds.push(Detector::new("dart", ms));
        let mut ms: Vec<Matcher> = Vec::new();
        ms.push(Matcher::by_file_name("mix.exs"));
        ds.push(Detector::new("elixir", ms));
        let mut ms: Vec<Matcher> = Vec::new();
        ms.push(Matcher::by_file_name("elm.json"));
        ms.push(Matcher::by_file_name("elm-package.json"));
        ms.push(Matcher::by_file_name(".elm-version"));
        ds.push(Detector::new("elm", ms));
        let mut ms: Vec<Matcher> = Vec::new();
        ms.push(Matcher::by_file_name("rebar.config"));
        ms.push(Matcher::by_file_name("erlang.mk"));
        ds.push(Detector::new("erlang", ms));
        let mut ms: Vec<Matcher> = Vec::new();
        ms.push(Matcher::by_file_extension("cabal"));
        ms.push(Matcher::by_file_name("stack.yaml"));
        ms.push(Matcher::by_file_name("Setup.hs"));
        ds.push(Detector::new("haskell", ms));
        let mut ms: Vec<Matcher> = Vec::new();
        ms.push(Matcher::by_file_name("go.mod"));
        ms.push(Matcher::by_file_name("go.sum"));
        ms.push(Matcher::by_file_name("glide.yaml"));
        ms.push(Matcher::by_file_name("Gopkg.yml"));
        ms.push(Matcher::by_file_name("Gopkg.lock"));
        ms.push(Matcher::by_file_name(".go-version"));
        ds.push(Detector::new("go", ms));
        let mut ms: Vec<Matcher> = Vec::new();
        ms.push(Matcher::by_file_name("build.gradle"));
        ms.push(Matcher::by_file_name("pom.xml"));
        ms.push(Matcher::by_file_name("build.gradle.kts"));
        ms.push(Matcher::by_file_name("build.sbt"));
        ms.push(Matcher::by_file_name(".java.version"));
        ms.push(Matcher::by_file_name("deps.edn"));
        ms.push(Matcher::by_file_name("project.clj"));
        ms.push(Matcher::by_file_name("build.boot"));
        ds.push(Detector::new("java", ms));
        let mut ms: Vec<Matcher> = Vec::new();
        ms.push(Matcher::by_file_name("Project.toml"));
        ms.push(Matcher::by_file_name("Manifest.toml"));
        ds.push(Detector::new("julia", ms));
        let mut ms: Vec<Matcher> = Vec::new();
        ms.push(Matcher::by_file_name("nim.cfg"));
        ds.push(Detector::new("nim", ms));
        let mut ms: Vec<Matcher> = Vec::new();
        ms.push(Matcher::by_file_name("package.json"));
        ms.push(Matcher::by_file_name(".node-version"));
        ms.push(Matcher::by_file_name(".nvmrc"));
        ds.push(Detector::new("node", ms));
        let mut ms: Vec<Matcher> = Vec::new();
        ms.push(Matcher::by_file_name("dune"));
        ms.push(Matcher::by_file_name("dune-project"));
        ms.push(Matcher::by_file_name("jbuild"));
        ms.push(Matcher::by_file_name("jbuild-ignore"));
        ms.push(Matcher::by_file_name(".merlin"));
        ms.push(Matcher::by_file_extension("opam"));
        ds.push(Detector::new("ocaml", ms));
        let mut ms: Vec<Matcher> = Vec::new();
        ms.push(Matcher::by_file_name("Makefile.PL"));
        ms.push(Matcher::by_file_name("Build.PL"));
        ms.push(Matcher::by_file_name("cpanfile"));
        ms.push(Matcher::by_file_name("cpanfile.snapshot"));
        ms.push(Matcher::by_file_name("META.json"));
        ms.push(Matcher::by_file_name("META.yml"));
        ms.push(Matcher::by_file_name(".perl-version"));
        ds.push(Detector::new("perl", ms));
        let mut ms: Vec<Matcher> = Vec::new();
        ms.push(Matcher::by_file_name("composer.json"));
        ms.push(Matcher::by_file_name(".php-version"));
        ds.push(Detector::new("composer", ms));
        let mut ms: Vec<Matcher> = Vec::new();
        ms.push(Matcher::by_file_name("spago.dhall"));
        ms.push(Matcher::by_file_name("packages.dhall"));
        ds.push(Detector::new("purescript", ms));
        let mut ms: Vec<Matcher> = Vec::new();
        ms.push(Matcher::by_file_name("requirements.txt"));
        ms.push(Matcher::by_file_name(".python-version"));
        ms.push(Matcher::by_file_name("pyproject.toml"));
        ms.push(Matcher::by_file_name("Pipfile"));
        ms.push(Matcher::by_file_name("tox.ini"));
        ms.push(Matcher::by_file_name("setup.py"));
        ms.push(Matcher::by_file_name("__init__.py"));
        ds.push(Detector::new("python", ms));
        let mut ms: Vec<Matcher> = Vec::new();
        ms.push(Matcher::by_file_name(".Rprofile"));
        ds.push(Detector::new("r", ms));
        let mut ms: Vec<Matcher> = Vec::new();
        ms.push(Matcher::by_file_extension("gemspec"));
        ms.push(Matcher::by_file_name("Gemfile"));
        ms.push(Matcher::by_file_name(".ruby-version"));
        ds.push(Detector::new("ruby", ms));
        let mut ms: Vec<Matcher> = Vec::new();
        ms.push(Matcher::by_file_name("Cargo.toml"));
        ds.push(Detector::new("rust", ms));
        let mut ms: Vec<Matcher> = Vec::new();
        ms.push(Matcher::by_file_name(".scalaenv"));
        ms.push(Matcher::by_file_name(".sbtenv"));
        ms.push(Matcher::by_file_name("build.sbt"));
        ds.push(Detector::new("scala", ms));
        let mut ms: Vec<Matcher> = Vec::new();
        ms.push(Matcher::by_file_name("Package.swift"));
        ds.push(Detector::new("swift", ms));
        let mut ms: Vec<Matcher> = Vec::new();
        ms.push(Matcher::by_file_extension("zig"));
        ds.push(Detector::new("zig", ms));
        let d = Detectors { detectors: ds };
        proof {
            assert(d@ =~~= spec_default_detectors());
        }
        d
    }
}

/// The index of the last occurrence of `c` in `s`, or `-1` if `c` does
/// not occur.
pub open spec fn spec_last_index_of(s: Seq<char>, c: char) -> int
    decreases s.len(),
{
    if s.len() == 0 {
        -1
    } else if s[s.len() - 1] == c {
        s.len() - 1
    } else {
        spec_last_index_of(s.drop_last(), c)
    }
}

proof fn lemma_last_index_none(s: Seq<char>, c: char)
    requires
        forall|k: int| 0 <= k < s.len() ==> s[k] != c,
    ensures
        spec_last_index_of(s, c) == -1,
    decreases s.len(),
{
    if s.len() > 0 {
        lemma_last_index_none(s.drop_last(), c);
    }
}

proof fn lemma_last_index_at(s: Seq<char>, c: char, j: int)
    requires
        0 <= j < s.len(),
        s[j] == c,
        forall|k: int| j < k < s.len() ==> s[k] != c,
    ensures
        spec_last_index_of(s, c) == j,
    decreases s.len(),
{
    if j < s.len() - 1 {
        lemma_last_index_at(s.drop_last(), c, j);
    }
}

/// One more than the index of the last occurrence of `c` in `v`, or
/// zero when `c` does not occur.
fn last_index_plus_one(v: &Vec<char>, c: char) -> (r: usize)
    ensures
        r == spec_last_index_of(v@, c) + 1,
        r <= v@.len(),
{
    let mut i = v.len();
    while i > 0
        invariant
            i <= v@.len(),
            forall|k: int| i <= k < v@.len() ==> v@[k] != c,
        decreases i,
    {
        if v[i - 1] == c {
            proof {
                lemma_last_index_at(v@, c, i - 1);
            }
            return i;
        }
        i -= 1;
    }
    proof {
        lemma_last_index_none(v@, c);
    }
    0
}

/// The final component of a path text: everything after the last `/`.
pub open spec fn spec_file_name_of(p: Seq<char>) -> Seq<char> {
    p.skip(spec_last_index_of(p, '/') + 1)
}

/// The extension of a path text: everything after the last `.` of the
/// final component, or nothing when the component has no `.` or starts
/// with its only `.`.
pub open spec fn spec_extension_of(p: Seq<char>) -> Option<Seq<char>> {
    let name = spec_file_name_of(p);
    let d = spec_last_index_of(name, '.');
    if d <= 0 {
        None
    } else {
        Some(name.skip(d + 1))
    }
}

/// The languages detected from a single file path: the detectors of
/// the default table applied to the path's final component, taken as a
/// file.
pub open spec fn spec_detect_lang(p: Seq<char>) -> Seq<Seq<char>> {
    spec_detects_templates(
        spec_default_detectors(),
        seq![
            EntryV {
                file_name: spec_file_name_of(p),
                extension: spec_extension_of(p),
                is_file: true,
            },
        ],
    )
}

/// Detect the project languages a single file suggests, from its file
/// name and extension.
pub fn detect_lang(file_path: &str) -> (r: Vec<String>)
    ensures
        r.deep_view() == spec_detect_lang(file_path@),
{
    let v = str_chars(file_path);
    let k = last_index_plus_one(&v, '/');
    let n = v.len();
    let name = file_path.substring_char(k, n);
    proof {
        assert(name@ =~= spec_file_name_of(file_path@));
    }
    let nv = str_chars(name);
    let d = last_index_plus_one(&nv, '.');
    let nlen = nv.len();
    let ext: Option<&str> = if d <= 1 {
        None
    } else {
        Some(name.substring_char(d, nlen))
    };
    proof {
        match ext {
            Some(e) => {
                assert(e@ =~= spec_file_name_of(file_path@).skip(
                    spec_last_index_of(name@, '.') + 1,
                ));
            },
            None => {},
        }
    }
    let entry = FakeDirEntry::new(name, ext, true);
    let mut entries: Vec<FakeDirEntry> = Vec::new();
    entries.push(entry);
    let detectors = Detectors::default();
    let r = detectors.detects(&entries);
    proof {
        assert(entry_views(entries@) =~~= seq![
            EntryV {
                file_name: spec_file_name_of(file_path@),
                extension: spec_extension_of(file_path@),
                is_file: true,
            },
        ]);
    }
    r
}

/// The mathematical value of one language record.
#[verifier::ext_equal]
pub ghost struct LanguageV {
    pub key: Seq<char>,
    pub name: Seq<char>,
    pub file_name: Seq<char>,
    pub contents: Seq<char>,
}

/// One language's ignore template: its lookup key, display name, the
/// template's file name, and the template text itself.
pub struct Language {
    key: String,
    name: String,
    file_name: String,
    /// The ignore-template text for this language.
    pub contents: String,
}

impl View for Language {
    type V = LanguageV;

    closed spec fn view(&self) -> LanguageV {
        LanguageV {
            key: self.key@,
            name: self.name@,
            file_name: self.file_name@,
            contents: self.contents@,
        }
    }
}

impl DeepView for Language {
    type V = LanguageV;

    closed spec fn deep_view(&self) -> LanguageV {
        self.view()
    }
}

impl Language {
    /// A language record from its parts.
    pub fn new(key: &str, name: &str, file_name: &str, contents: &str) -> (l: Language)
        ensures
            l@ == (LanguageV {
                key: key@,
                name: name@,
                file_name: file_name@,
                contents: contents@,
            }),
    {
        Language {
            key: key.to_owned(),
            name: name.to_owned(),
            file_name: file_name.to_owned(),
            contents: contents.to_owned(),
        }
    }
}

/// The configuration the detection component works from: the marker
/// file names that identify a project, and the ignore template of each
/// known language. It is built explicitly by the caller and passed by
/// reference wherever a lookup is needed.
pub struct Configs {
    /// The marker file names used to find candidate files in a project
    /// directory.
    pub project_file_types: Vec<String>,
    /// The known languages' ignore templates, looked up by key.
    pub git_ignores: Vec<Language>,
}

/// The first language record whose key equals `key`, if any.
pub open spec fn spec_find_lang(gi: Seq<LanguageV>, key: Seq<char>) -> Option<LanguageV>
    decreases gi.len(),
{
    if gi.len() == 0 {
        None
    } else if gi[0].key == key {
        Some(gi[0])
    } else {
        spec_find_lang(gi.drop_first(), key)
    }
}

/// The template texts of the given languages, in order; a language
/// without a record contributes nothing.
pub open spec fn spec_collect_ignores(gi: Seq<LanguageV>, langs: Seq<Seq<char>>) -> Seq<Seq<char>>
    decreases langs.len(),
{
    if langs.len() == 0 {
        Seq::empty()
    } else {
        spec_collect_ignores(gi, langs.drop_last()) + (match spec_find_lang(gi, langs.last()) {
            Some(l) => seq![l.contents],
            None => Seq::<Seq<char>>::empty(),
        })
    }
}

/// The index of the first language record whose key equals `key`.
fn find_lang(gi: &Vec<Language>, key: &String) -> (r: Option<usize>)
    ensures
        r matches Some(i) ==> i < gi@.len() && spec_find_lang(gi.deep_view(), key@) == Some(
            gi.deep_view()[i as int],
        ),
        r is None ==> spec_find_lang(gi.deep_view(), key@) is None,
{
    let ghost gdv = gi.deep_view();
    proof {
        assert(gdv.skip(0) =~= gdv);
    }
    let mut j: usize = 0;
    while j < gi.len()
        invariant
            j <= gi@.len(),
            gdv == gi.deep_view(),
            spec_find_lang(gdv, key@) == spec_find_lang(gdv.skip(j as int), key@),
        decreases gi@.len() - j,
    {
        let l = &gi[j];
        proof {
            assert(gdv.skip(j as int)[0] == gdv[j as int]);
            assert(gdv[j as int] == gi@[j as int]@);
        }
        if l.key == *key {
            return Some(j);
        }
        proof {
            assert(gdv.skip(j as int).drop_first() =~= gdv.skip(j + 1));
        }
        j += 1;
    }
    proof {
        assert(gdv.skip(gdv.len() as int) =~= Seq::<LanguageV>::empty());
    }
    None
}

/// Collect the ignore templates of the detected languages from the
/// configuration: one template text per detected language that has a
/// record, in order; the result is present exactly when at least one
/// template was found.
pub fn get_lang_gitignore(configs: &Configs, langs: &Option<Vec<String>>) -> (r: Option<
    Vec<String>,
>)
    ensures
        ({
            let collected = match *langs {
                Some(ls) => spec_collect_ignores(configs.git_ignores.deep_view(), ls.deep_view()),
                None => Seq::<Seq<char>>::empty(),
            };
            &&& (r matches Some(v) ==> v.deep_view() == collected && collected.len() > 0)
            &&& (r is None ==> collected.len() == 0)
        }),
{
    let ghost gdv = configs.git_ignores.deep_view();
    let mut git_ignores: Vec<String> = Vec::new();
    match langs {
        Some(ls) => {
            let ghost ldv = ls.deep_view();
            let mut i: usize = 0;
            while i < ls.len()
                invariant
                    i <= ls@.len(),
                    gdv == configs.git_ignores.deep_view(),
                    ldv == ls.deep_view(),
                    git_ignores.deep_view() == spec_collect_ignores(gdv, ldv.take(i as int)),
                decreases ls@.len() - i,
            {
                proof {
                    assert(ldv.take(i + 1).drop_last() =~= ldv.take(i as int));
                    assert(ldv.take(i + 1).last() == ls@[i as int]@);
                }
                let ghost old_dv = git_ignores.deep_view();
                match find_lang(&configs.git_ignores, &ls[i]) {
                    Some(idx) => {
                        let l = &configs.git_ignores[idx];
                        proof {
                            assert(gdv[idx as int] == configs.git_ignores@[idx as int]@);
                        }
                        git_ignores.push(l.contents.clone());
                        proof {
                            assert(git_ignores.deep_view() =~~= old_dv.push(
                                gdv[idx as int].contents,
                            ));
                            assert(git_ignores.deep_view() =~~= spec_collect_ignores(
                                gdv,
                                ldv.take(i + 1),
                            ));
                        }
                    },
                    None => {
                        proof {
                            assert(git_ignores.deep_view() =~~= spec_collect_ignores(
                                gdv,
                                ldv.take(i + 1),
                            ));
                        }
                    },
                }
                i += 1;
            }
            proof {
                assert(ldv.take(ldv.len() as int) =~= ldv);
            }
        },
        None => {},
    }
    if git_ignores.len() > 0 {
        Some(git_ignores)
    } else {
        None
    }
}

/// The languages detected across many files: the detections of each
/// file, concatenated in file order.
pub open spec fn spec_detect_langs_from_files(files: Seq<Seq<char>>) -> Seq<Seq<char>>
    decreases files.len(),
{
    if files.len() == 0 {
        Seq::empty()
    } else {
        spec_detect_langs_from_files(files.drop_last()) + spec_detect_lang(files.last())
    }
}

/// Detect the project languages a list of candidate files suggests:
/// each file's detections, concatenated in file order.
pub fn detect_langs_from_files(files: &Vec<String>) -> (r: Vec<String>)
    ensures
        r.deep_view() == spec_detect_langs_from_files(files.deep_view()),
{
    let ghost fdv = files.deep_view();
    let mut langs: Vec<String> = Vec::new();
    let mut i: usize = 0;
    proof {
        assert(langs.deep_view() =~~= spec_detect_langs_from_files(fdv.take(0)));
    }
    while i < files.len()
        invariant
            i <= files@.len(),
            fdv == files.deep_view(),
            langs.deep_view() == spec_detect_langs_from_files(fdv.take(i as int)),
        decreases files@.len() - i,
    {
        proof {
            assert(fdv.take(i + 1).drop_last() =~= fdv.take(i as int));
            assert(fdv.take(i + 1).last() == files@[i as int]@);
        }
        let ghost old_dv = langs.deep_view();
        let mut found = detect_lang(files[i].as_str());
        let ghost found_dv = found.deep_view();
        langs.append(&mut found);
        proof {
            assert(langs.deep_view() =~~= old_dv + found_dv);
            assert(langs.deep_view() =~~= spec_detect_langs_from_files(fdv.take(i + 1)));
        }
        i += 1;
    }
    proof {
        assert(fdv.take(fdv.len() as int) =~= fdv);
    }
    langs
}

/// The marker file names that identify a project's language, in the
/// order a directory scan consults them.
pub open spec fn spec_default_project_file_types() -> Seq<Seq<char>> {
    seq![
        "shard.yml"@,
        "pubspec.yaml"@,
        "pubspec.yml"@,
        "pubspec.lock"@,
        "mix.exs"@,
        "elm.json"@,
        "elm-package.json"@,
        ".elm-version"@,
        "rebar.config"@,
        "erlang.mk"@,
        "stack.yaml"@,
        "Setup.hs"@,
        "go.mod"@,
        "go.sum"@,
        "glide.yaml"@,
        "Gopkg.yml"@,
        "Gopkg.lock"@,
        ".go-version"@,
        "build.gradle"@,
        "pom.xml"@,
        "build.gradle.kts"@,
        "build.sbt"@,
        ".java.version"@,
        "deps.edn"@,
        "project.clj"@,
        "build.boot"@,
        "Project.toml"@,
        "Manifest.toml"@,
        "nim.cfg"@,
        "package.json"@,
        ".node-version"@,
        ".nvmrc"@,
        "dune"@,
        "dune-project"@,
        "jbuild"@,
        "jbuild-ignore"@,
        ".merlin"@,
        "Makefile.PL"@,
        "Build.PL"@,
        "cpanfile"@,
        "cpanfile.snapshot"@,
        "META.json"@,
        "META.yml"@,
        ".perl-version"@,
        "composer.json"@,
        ".php-version"@,
        "spago.dhall"@,
        "packages.dhall"@,
        "requirements.txt"@,
        ".python-version"@,
        "pyproject.toml"@,
        "Pipfile"@,
        "tox.ini"@,
        "setup.py"@,
        "__init__.py"@,
        ".Rprofile"@,
        "Gemfile"@,
        ".ruby-version"@,
        "Cargo.toml"@,
        ".scalaenv"@,
        ".sbtenv"@,
        "build.sbt"@,
        "Package.swift"@,
    ]
}

/// The marker file names used to find candidate files in a project
/// directory, for the scanning caller to put into a `Configs`.
#[verifier::rlimit(100)]
pub fn default_project_file_types() -> (r: Vec<String>)
    ensures
        r.deep_view() == spec_default_project_file_types(),
{
    let mut r: Vec<String> = Vec::new();
    r.push("shard.yml".to_owned());
    r.push("pubspec.yaml".to_owned());
    r.push("pubspec.yml".to_owned());
    r.push("pubspec.lock".to_owned());
    r.push("mix.exs".to_owned());
    r.push("elm.json".to_owned());
    r.push("elm-package.json".to_owned());
    r.push(".elm-version".to_owned());
    r.push("rebar.config".to_owned());
    r.push("erlang.mk".to_owned());
    r.push("stack.yaml".to_owned());
    r.push("Setup.hs".to_owned());
    r.push("go.mod".to_owned());
    r.push("go.sum".to_owned());
    r.push("glide.yaml".to_owned());
    r.push("Gopkg.yml".to_owned());
    r.push("Gopkg.lock".to_owned());
    r.push(".go-version".to_owned());
    r.push("build.gradle".to_owned());
    r.push("pom.xml".to_owned());
    r.push("build.gradle.kts".to_owned());
    r.push("build.sbt".to_owned());
    r.push(".java.version".to_owned());
    r.push("deps.edn".to_owned());
    r.push("project.clj".to_owned());
    r.push("build.boot".to_owned());
    r.push("Project.toml".to_owned());
    r.push("Manifest.toml".to_owned());
    r.push("nim.cfg".to_owned());
    r.push("package.json".to_owned());
    r.push(".node-version".to_owned());
    r.push(".nvmrc".to_owned());
    r.push("dune".to_owned());
    r.push("dune-project".to_owned());
    r.push("jbuild".to_owned());
    r.push("jbuild-ignore".to_owned());
    r.push(".merlin".to_owned());
    r.push("Makefile.PL".to_owned());
    r.push("Build.PL".to_owned());
    r.push("cpanfile".to_owned());
    r.push("cpanfile.snapshot".to_owned());
    r.push("META.json".to_owned());
    r.push("META.yml".to_owned());
    r.push(".perl-version".to_owned());
    r.push("composer.json".to_owned());
    r.push(".php-version".to_owned());
    r.push("spago.dhall".to_owned());
    r.push("packages.dhall".to_owned());
    r.push("requirements.txt".to_owned());
    r.push(".python-version".to_owned());
    r.push("pyproject.toml".to_owned());
    r.push("Pipfile".to_owned());
    r.push("tox.ini".to_owned());
    r.push("setup.py".to_owned());
    r.push("__init__.py".to_owned());
    r.push(".Rprofile".to_owned());
    r.push("Gemfile".to_owned());
    r.push(".ruby-version".to_owned());
    r.push("Cargo.toml".to_owned());
    r.push(".scalaenv".to_owned());
    r.push(".sbtenv".to_owned());
    r.push("build.sbt".to_owned());
    r.push("Package.swift".to_owned());
    proof {
        assert(r.deep_view() =~~= spec_default_project_file_types());
    }
    r
}

/// Whether `name` equals one of the names in the list; used to pick
/// the marker files out of a directory listing.
pub fn name_in_list(list: &Vec<String>, name: &str) -> (r: bool)
    ensures
        r == list.deep_view().contains(name@),
{
    let ghost dv = list.deep_view();
    let name_owned: String = name.to_owned();
    let mut i: usize = 0;
    while i < list.len()
        invariant
            i <= list@.len(),
            dv == list.deep_view(),
            name_owned@ == name@,
            forall|k: int| 0 <= k < i ==> dv[k] != name@,
        decreases list@.len() - i,
    {
        let e = &list[i];
        proof {
            assert(dv[i as int] == list@[i as int]@);
        }
        if *e == name_owned {
            proof {
                assert(dv[i as int] == name@);
            }
            return true;
        }
        i += 1;
    }
    false
}

} // verus!
