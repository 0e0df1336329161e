//! The configuration of a `.prsmproject` file: its sections, their defaults, and which files
//! count as PrSM sources.
use vstd::prelude::*;
use crate::text::{owned, chars_of};
use crate::project_graph::{insert_sorted, spec_has_path, spec_paths_sorted};

verus! {

/// A `.prsmproject` file.
#[derive(Debug, Clone)]
pub struct PrismProject {
    pub project: ProjectSection,
    pub compiler: CompilerSection,
    pub source: SourceSection,
    pub language: LanguageSection,
    pub features: FeaturesSection,
}

/// `[project]`: the project name and the PrSM version it was written for.
#[derive(Debug, Clone)]
pub struct ProjectSection {
    pub name: String,
    pub prsm_version: String,
}

/// `[compiler]`: where the compiler is and where generated C# goes.
#[derive(Debug, Clone)]
pub struct CompilerSection {
    pub prism_path: String,
    pub output_dir: String,
    pub target_unity: String,
}

/// `[source]`: glob patterns of the sources to compile and to leave out.
#[derive(Debug, Clone)]
pub struct SourceSection {
    pub includes: Vec<String>,
    pub exclude: Vec<String>,
}

/// `[language]`: the language version and the opt-in features.
#[derive(Debug, Clone)]
pub struct LanguageSection {
    pub version: String,
    pub features: Vec<String>,
}

/// `[features]`: tool switches.
#[derive(Debug, Clone)]
pub struct FeaturesSection {
    pub auto_compile_on_save: bool,
    pub generate_meta_files: bool,
    pub pascal_case_methods: bool,
}

/// The PrSM version a project names when it names none.
pub fn default_version() -> (r: String)
    ensures
        r@ == "0.1.0"@,
{
    owned("0.1.0")
}

/// The language version of a project that names none.
pub fn default_language_version() -> (r: String)
    ensures
        r@ == "1.0"@,
{
    owned("1.0")
}

/// The compiler command of a project that names none.
pub fn default_prism_path() -> (r: String)
    ensures
        r@ == "prism"@,
{
    owned("prism")
}

/// The output directory of a project that names none.
pub fn default_output_dir() -> (r: String)
    ensures
        r@ == "Assets/Generated/PrSM"@,
{
    owned("Assets/Generated/PrSM")
}

/// The source patterns of a project that names none: every `.prsm` file.
pub fn default_include() -> (r: Vec<String>)
    ensures
        r@.len() == 1,
        r@[0]@ == "**/*.prsm"@,
{
    vec![owned("**/*.prsm")]
}

/// The value of a switch that is on unless turned off.
pub fn default_true() -> (r: bool)
    ensures
        r,
{
    true
}

impl Default for CompilerSection {
    fn default() -> (r: Self)
        ensures
            r.prism_path@ == "prism"@,
            r.output_dir@ == "Assets/Generated/PrSM"@,
            r.target_unity@ == Seq::<char>::empty(),
    {
        CompilerSection { prism_path: default_prism_path(), output_dir: default_output_dir(), target_unity: String::new() }
    }
}

impl Default for SourceSection {
    fn default() -> (r: Self)
        ensures
            r.includes@.len() == 1,
            r.includes@[0]@ == "**/*.prsm"@,
            r.exclude@.len() == 0,
    {
        SourceSection { includes: default_include(), exclude: Vec::new() }
    }
}

impl Default for LanguageSection {
    fn default() -> (r: Self)
        ensures
            r.version@ == "1.0"@,
            r.features@.len() == 0,
    {
        LanguageSection { version: default_language_version(), features: Vec::new() }
    }
}

impl Default for FeaturesSection {
    fn default() -> (r: Self)
        ensures
            r.auto_compile_on_save,
            !r.generate_meta_files,
            r.pascal_case_methods,
    {
        FeaturesSection { auto_compile_on_save: default_true(), generate_meta_files: false, pascal_case_methods: default_true() }
    }
}

/// The part of `s` after its last `/` (all of `s` when it has none).
pub open spec fn spec_last_segment(s: Seq<char>) -> Seq<char>
    decreases s.len(),
{
    if s.len() == 0 {
        s
    } else if s.last() == '/' {
        Seq::empty()
    } else {
        spec_last_segment(s.drop_last()).push(s.last())
    }
}

/// The extension of a file name: the part after its last `.`, when that `.` is not its first
/// character.
pub open spec fn spec_extension(name: Seq<char>) -> Option<Seq<char>>
    decreases name.len(),
{
    if name.len() <= 1 {
        None
    } else if name.last() == '.' {
        Some(Seq::empty())
    } else {
        match spec_extension(name.drop_last()) {
            Some(e) => Some(e.push(name.last())),
            None => None,
        }
    }
}

/// A path names a PrSM source: the extension of its last segment is `prsm`, or the legacy
/// `mn`.
pub open spec fn spec_is_prism_source(path: Seq<char>) -> bool {
    let name = spec_last_segment(path);
    name != ".."@ && (spec_extension(name) == Some("prsm"@) || spec_extension(name) == Some("mn"@))
}

/// Where the last segment of `chars` starts: just after its last `/`, or at 0.
pub(crate) fn last_segment_start(chars: &Vec<char>) -> (r: usize)
    ensures
        r <= chars@.len(),
        spec_last_segment(chars@) == chars@.subrange(r as int, chars@.len() as int),
{
    let n = chars.len();
    let mut start = n;
    assert(chars@.subrange(0, n as int) == chars@);
    assert(chars@.subrange(n as int, n as int) =~= Seq::<char>::empty());
    assert(spec_last_segment(chars@) == spec_last_segment(chars@.subrange(0, n as int)) + chars@.subrange(n as int, n as int));
    while start > 0 && chars[start - 1] != '/'
        invariant
            n == chars@.len(),
            start <= n,
            spec_last_segment(chars@) == spec_last_segment(chars@.subrange(0, start as int)) + chars@.subrange(start as int, n as int),
        decreases start,
    {
        proof {
            let pre = chars@.subrange(0, start as int);
            assert(pre.drop_last() == chars@.subrange(0, start as int - 1));
            assert(chars@.subrange(start as int - 1, n as int) == seq![pre.last()] + chars@.subrange(start as int, n as int));
        }
        start = start - 1;
    }
    proof {
        if start > 0 {
            assert(chars@.subrange(0, start as int).last() == '/');
        }
        assert(spec_last_segment(chars@.subrange(0, start as int)) == Seq::<char>::empty());
        assert(Seq::<char>::empty() + chars@.subrange(start as int, n as int) == chars@.subrange(start as int, n as int));
    }
    start
}

/// Just past the last `.` of `chars[start..]`, or `start` when there is none.
pub(crate) fn last_dot_end(chars: &Vec<char>, start: usize) -> (r: usize)
    requires
        start <= chars@.len(),
    ensures
        start <= r <= chars@.len(),
        r == start || chars@[r - 1] == '.',
        forall|k: int| r <= k < chars@.len() ==> chars@[k] != '.',
{
    let mut dot = chars.len();
    while dot > start && chars[dot - 1] != '.'
        invariant
            start <= dot <= chars@.len(),
            forall|k: int| dot <= k < chars@.len() ==> chars@[k] != '.',
        decreases dot,
    {
        dot = dot - 1;
    }
    dot
}

/// Whether `path` names a PrSM source file (`.prsm`, or the legacy `.mn`). The file name is
/// the part after the last `/`; a name that starts with its only `.` has no extension.
pub fn is_prism_source_file(path: &str) -> (r: bool)
    ensures
        r == spec_is_prism_source(path@),
{
    let chars = chars_of(path);
    let n = chars.len();
    let start = last_segment_start(&chars);
    let ghost name = chars@.subrange(start as int, n as int);
    let dot = last_dot_end(&chars, start);
    proof {
        assert forall|k: int| dot - start <= k < name.len() implies name[k] != '.' by {
            assert(name[k] == chars@[start + k]);
        }
        lemma_extension_of(name, dot - start);
        reveal_strlit("..");
        reveal_strlit("prsm");
        reveal_strlit("mn");
    }
    if n - start == 2 && chars[start] == '.' && chars[start + 1] == '.' {
        proof {
            assert(name =~= ".."@);
        }
        return false;
    }
    proof {
        if name == ".."@ {
            assert(name.len() == 2 && name[0] == '.' && name[1] == '.');
        }
    }
    if dot <= start + 1 {
        return false;
    }
    let len = n - dot;
    let is_prsm = len == 4 && chars[dot] == 'p' && chars[dot + 1] == 'r' && chars[dot + 2] == 's' && chars[dot + 3] == 'm';
    let is_mn = len == 2 && chars[dot] == 'm' && chars[dot + 1] == 'n';
    proof {
        let e = chars@.subrange(dot as int, n as int);
        assert(name.subrange(dot - start, name.len() as int) =~= e);
        assert(spec_extension(name) == Some(e));
        if is_prsm {
            assert(e =~= "prsm"@);
        }
        if is_mn {
            assert(e =~= "mn"@);
        }
        if e == "prsm"@ {
            assert(e[0] == 'p' && e[1] == 'r' && e[2] == 's' && e[3] == 'm');
        }
        if e == "mn"@ {
            assert(e[0] == 'm' && e[1] == 'n');
        }
    }
    is_prsm || is_mn
}

/// The extension of `name` is the part after position `d - 1` when that is the last `.` and
/// not the first character; there is none when `name` has no `.` past its first character.
pub(crate) proof fn lemma_extension_of(name: Seq<char>, d: int)
    requires
        0 <= d <= name.len(),
        d == 0 || name[d - 1] == '.',
        forall|k: int| d <= k < name.len() ==> name[k] != '.',
    ensures
        d <= 1 ==> spec_extension(name) is None,
        d > 1 ==> spec_extension(name) == Some(name.subrange(d, name.len() as int)),
    decreases name.len(),
{
    if name.len() <= 1 {
    } else if name.last() == '.' {
        assert(d == name.len());
        assert(name.subrange(d, name.len() as int) =~= Seq::<char>::empty());
    } else {
        let shorter = name.drop_last();
        lemma_extension_of(shorter, d);
        if d > 1 {
            assert(name.subrange(d, name.len() as int) =~= shorter.subrange(d, shorter.len() as int).push(name.last()));
        }
    }
}


// ── Which files are sources ──────────────────────────────────────

/// What the `glob` crate answers for a pattern and a path: `None` when the pattern does not
/// compile, else whether the path matches it.
pub uninterp spec fn spec_glob_matches(pattern: Seq<char>, text: Seq<char>) -> Option<bool>;

/// Compiles `pattern` with `glob::Pattern::new` and matches `text` against it with
/// `Pattern::matches` (default match options). Both are functions of their arguments alone;
/// the contract names the outcome and says nothing of glob syntax.
#[verifier::external_body]
fn glob_pattern_matches(pattern: &str, text: &str) -> (r: Option<bool>)
    ensures
        r == spec_glob_matches(pattern@, text@),
{
    match glob::Pattern::new(pattern) {
        Ok(compiled) => Some(compiled.matches(text)),
        Err(_) => None,
    }
}

/// A path (relative to the project root) is excluded when one of the `exclude` patterns
/// compiles and matches it.
pub open spec fn spec_is_excluded(exclude: Seq<String>, relative_path: Seq<char>) -> bool {
    exists|i: int| 0 <= i < exclude.len() && #[trigger] spec_glob_matches(exclude[i]@, relative_path) == Some(true)
}

/// A file found by an `include` pattern: its path, and that path relative to the project
/// root (the path itself when it lies outside the root).
pub struct SourceCandidate {
    pub path: String,
    pub relative: String,
}

/// A candidate that is a PrSM source and not excluded.
pub open spec fn spec_selected_source(exclude: Seq<String>, c: SourceCandidate) -> bool {
    spec_is_prism_source(c.path@) && !spec_is_excluded(exclude, c.relative@)
}

impl PrismProject {
    /// Whether the `exclude` patterns leave out `relative_path`.
    pub fn is_excluded(&self, relative_path: &str) -> (r: bool)
        ensures
            r == spec_is_excluded(self.source.exclude@, relative_path@),
    {
        let exclude = &self.source.exclude;
        let mut i: usize = 0;
        while i < exclude.len()
            invariant
                i <= exclude@.len(),
                *exclude == self.source.exclude,
                forall|k: int| 0 <= k < i ==> #[trigger] spec_glob_matches(exclude@[k]@, relative_path@) != Some(true),
            decreases exclude@.len() - i,
        {
            let m = glob_pattern_matches(exclude[i].as_str(), relative_path);
            if m == Some(true) {
                assert(spec_glob_matches(exclude@[i as int]@, relative_path@) == Some(true));
                return true;
            }
            i = i + 1;
        }
        false
    }

    /// The sources among the files the `include` patterns found: PrSM sources that are not
    /// excluded, sorted in path order, each once.
    pub fn select_sources(&self, candidates: &Vec<SourceCandidate>) -> (r: Vec<String>)
        ensures
            spec_paths_sorted(r@),
            forall|p: Seq<char>| #[trigger] spec_has_path(r@, p) <==> exists|i: int| 0 <= i < candidates@.len()
                && #[trigger] candidates@[i].path@ == p && spec_selected_source(self.source.exclude@, candidates@[i]),
    {
        let mut files: Vec<String> = Vec::new();
        let mut i: usize = 0;
        while i < candidates.len()
            invariant
                i <= candidates@.len(),
                spec_paths_sorted(files@),
                forall|p: Seq<char>| #[trigger] spec_has_path(files@, p) <==> exists|j: int| 0 <= j < i
                    && #[trigger] candidates@[j].path@ == p && spec_selected_source(self.source.exclude@, candidates@[j]),
            decreases candidates@.len() - i,
        {
            let c = &candidates[i];
            let keep = is_prism_source_file(c.path.as_str()) && !self.is_excluded(c.relative.as_str());
            let ghost before = files@;
            if keep {
                insert_sorted(&mut files, owned(c.path.as_str()));
            }
            proof {
                assert forall|p: Seq<char>| #[trigger] spec_has_path(files@, p) <==> exists|j: int| 0 <= j < i + 1
                    && #[trigger] candidates@[j].path@ == p && spec_selected_source(self.source.exclude@, candidates@[j]) by {
                    if exists|j: int| 0 <= j < i + 1 && #[trigger] candidates@[j].path@ == p
                        && spec_selected_source(self.source.exclude@, candidates@[j]) {
                        let j = choose|j: int| 0 <= j < i + 1 && #[trigger] candidates@[j].path@ == p
                            && spec_selected_source(self.source.exclude@, candidates@[j]);
                        if j < i {
                            assert(spec_has_path(before, p));
                        }
                    }
                    if spec_has_path(before, p) {
                        let j = choose|j: int| 0 <= j < i && #[trigger] candidates@[j].path@ == p
                            && spec_selected_source(self.source.exclude@, candidates@[j]);
                        assert(0 <= j < i + 1);
                    }
                }
            }
            i = i + 1;
        }
        files
    }
}


// ── New projects and rebuilds ────────────────────────────────────

/// The name `init` gives a project: the one asked for, else the name of the current
/// directory, else `MyProject`.
pub open spec fn spec_init_project_name(requested: Option<Seq<char>>, directory_name: Option<Seq<char>>) -> Seq<char> {
    match requested {
        Some(n) => n,
        None => match directory_name {
            Some(d) => d,
            None => "MyProject"@,
        },
    }
}

/// The name of a project that `init` creates.
pub fn init_project_name(requested: Option<String>, directory_name: Option<String>) -> (r: String)
    ensures
        r@ == spec_init_project_name(match requested { Some(n) => Some(n@), None => None },
            match directory_name { Some(d) => Some(d@), None => None }),
{
    match requested {
        Some(n) => n,
        None => match directory_name {
            Some(d) => d,
            None => owned("MyProject"),
        },
    }
}

/// A change to one of these paths asks for a rebuild: one of them has the extension `mn`.
pub open spec fn spec_triggers_rebuild(paths: Seq<String>) -> bool {
    exists|i: int| 0 <= i < paths.len() && #[trigger] spec_extension(spec_last_segment(paths[i]@)) == Some("mn"@)
}

/// Whether a file change event with these paths asks the watcher to rebuild.
pub fn triggers_rebuild(paths: &Vec<String>) -> (r: bool)
    ensures
        r == spec_triggers_rebuild(paths@),
{
    let mut i: usize = 0;
    while i < paths.len()
        invariant
            i <= paths@.len(),
            forall|k: int| 0 <= k < i ==> #[trigger] spec_extension(spec_last_segment(paths@[k]@)) != Some("mn"@),
        decreases paths@.len() - i,
    {
        if has_extension_mn(paths[i].as_str()) {
            return true;
        }
        i = i + 1;
    }
    false
}

/// Whether the last segment of `path` has the extension `mn`.
fn has_extension_mn(path: &str) -> (r: bool)
    ensures
        r == (spec_extension(spec_last_segment(path@)) == Some("mn"@)),
{
    let chars = chars_of(path);
    let n = chars.len();
    let start = last_segment_start(&chars);
    let ghost name = chars@.subrange(start as int, n as int);
    let dot = last_dot_end(&chars, start);
    proof {
        assert forall|k: int| dot - start <= k < name.len() implies name[k] != '.' by {
            assert(name[k] == chars@[start + k]);
        }
        lemma_extension_of(name, dot - start);
        reveal_strlit("mn");
    }
    if dot <= start + 1 {
        return false;
    }
    let is_mn = n - dot == 2 && chars[dot] == 'm' && chars[dot + 1] == 'n';
    proof {
        let e = chars@.subrange(dot as int, n as int);
        assert(name.subrange(dot - start, name.len() as int) =~= e);
        if is_mn {
            assert(e =~= "mn"@);
        }
        if e == "mn"@ {
            assert(e[0] == 'm' && e[1] == 'n');
        }
    }
    is_mn
}

/// Which project file a directory offers, in order of preference.
#[derive(Debug, Clone, Copy, PartialEq, Eq)]
pub enum ProjectFileChoice {
    /// The directory holds `.prsmproject`.
    Current,
    /// The directory holds only the older `.mnproject`.
    Legacy,
    /// The directory holds neither: look in its parent.
    Parent,
}

/// The step of the project-file search in one directory: `.prsmproject` when it is there,
/// else `.mnproject`, else the parent directory.
pub fn choose_project_file(has_current: bool, has_legacy: bool) -> (r: ProjectFileChoice)
    ensures
        has_current ==> r == ProjectFileChoice::Current,
        !has_current && has_legacy ==> r == ProjectFileChoice::Legacy,
        !has_current && !has_legacy ==> r == ProjectFileChoice::Parent,
{
    if has_current {
        ProjectFileChoice::Current
    } else if has_legacy {
        ProjectFileChoice::Legacy
    } else {
        ProjectFileChoice::Parent
    }
}

} // verus!
