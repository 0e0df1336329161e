//! The resolved view of a project: its language version and features, where output and the
//! cache go, which directories to watch, and what the Unity project provides.
use vstd::prelude::*;
use crate::project::PrismProject;
use crate::text::{str_eq, owned, cat2, cat3, chars_of, string_from_chars};

verus! {

/// A PrSM language version.
#[derive(Debug, Clone, Copy, PartialEq, Eq, Structural)]
pub enum LanguageVersion {
    V1,
    V2,
}

/// The version a spelling names: `1.0` or `2.0`.
pub open spec fn spec_parse_version(value: Seq<char>) -> Option<LanguageVersion> {
    if value == "1.0"@ {
        Some(LanguageVersion::V1)
    } else if value == "2.0"@ {
        Some(LanguageVersion::V2)
    } else {
        None
    }
}

/// The spelling of a version.
pub open spec fn spec_version_text(v: LanguageVersion) -> Seq<char> {
    match v {
        LanguageVersion::V1 => "1.0"@,
        LanguageVersion::V2 => "2.0"@,
    }
}

/// The message for a version that is not supported.
pub open spec fn spec_version_error(value: Seq<char>) -> Seq<char> {
    "Unsupported language version '"@ + value + "'. Supported versions: 1.0, 2.0"@
}

impl LanguageVersion {
    /// The version spelled `value`; any other spelling is refused with a message naming it.
    pub fn parse(value: &str) -> (r: Result<LanguageVersion, String>)
        ensures
            r is Ok <==> spec_parse_version(value@) is Some,
            r matches Ok(v) ==> spec_parse_version(value@) == Some(v),
            r matches Err(e) ==> e@ == spec_version_error(value@),
    {
        if str_eq(value, "1.0") {
            Ok(LanguageVersion::V1)
        } else if str_eq(value, "2.0") {
            Ok(LanguageVersion::V2)
        } else {
            Err(cat3("Unsupported language version '", value, "'. Supported versions: 1.0, 2.0"))
        }
    }

    /// The spelling of this version.
    pub fn as_str(self) -> (r: &'static str)
        ensures
            r@ == spec_version_text(self),
    {
        match self {
            LanguageVersion::V1 => "1.0",
            LanguageVersion::V2 => "2.0",
        }
    }
}

/// An opt-in language feature. Features are ordered as declared.
#[derive(Debug, Clone, Copy, PartialEq, Eq, PartialOrd, Ord, Structural)]
pub enum LanguageFeature {
    AutoUnlisten,
    InputSystem,
    PatternBindings,
}

/// The position of a feature in the declaration order (the order of `Ord`).
pub open spec fn spec_feature_rank(f: LanguageFeature) -> int {
    match f {
        LanguageFeature::AutoUnlisten => 0,
        LanguageFeature::InputSystem => 1,
        LanguageFeature::PatternBindings => 2,
    }
}

/// The feature a spelling names.
pub open spec fn spec_parse_feature(value: Seq<char>) -> Option<LanguageFeature> {
    if value == "auto-unlisten"@ {
        Some(LanguageFeature::AutoUnlisten)
    } else if value == "input-system"@ {
        Some(LanguageFeature::InputSystem)
    } else if value == "pattern-bindings"@ {
        Some(LanguageFeature::PatternBindings)
    } else {
        None
    }
}

/// The spelling of a feature.
pub open spec fn spec_feature_text(f: LanguageFeature) -> Seq<char> {
    match f {
        LanguageFeature::AutoUnlisten => "auto-unlisten"@,
        LanguageFeature::InputSystem => "input-system"@,
        LanguageFeature::PatternBindings => "pattern-bindings"@,
    }
}

/// The message for a feature that is not supported.
pub open spec fn spec_feature_error(value: Seq<char>) -> Seq<char> {
    "Unsupported language feature '"@ + value + "'. Supported features: auto-unlisten, input-system, pattern-bindings"@
}

impl LanguageFeature {
    /// The feature spelled `value`; any other spelling is refused with a message naming it.
    pub fn parse(value: &str) -> (r: Result<LanguageFeature, String>)
        ensures
            r is Ok <==> spec_parse_feature(value@) is Some,
            r matches Ok(f) ==> spec_parse_feature(value@) == Some(f),
            r matches Err(e) ==> e@ == spec_feature_error(value@),
    {
        if str_eq(value, "auto-unlisten") {
            Ok(LanguageFeature::AutoUnlisten)
        } else if str_eq(value, "input-system") {
            Ok(LanguageFeature::InputSystem)
        } else if str_eq(value, "pattern-bindings") {
            Ok(LanguageFeature::PatternBindings)
        } else {
            Err(cat3(
                "Unsupported language feature '",
                value,
                "'. Supported features: auto-unlisten, input-system, pattern-bindings",
            ))
        }
    }

    /// The spelling of this feature.
    pub fn as_str(self) -> (r: &'static str)
        ensures
            r@ == spec_feature_text(self),
    {
        match self {
            LanguageFeature::AutoUnlisten => "auto-unlisten",
            LanguageFeature::InputSystem => "input-system",
            LanguageFeature::PatternBindings => "pattern-bindings",
        }
    }
}

/// Every version spelling reads back as the version: `parse(v.as_str()) == Ok(v)`.
pub proof fn lemma_version_round_trip(v: LanguageVersion)
    ensures
        spec_parse_version(spec_version_text(v)) == Some(v),
{
    reveal_strlit("1.0");
    reveal_strlit("2.0");
    assert("2.0"@[0] != "1.0"@[0]);
}

/// A spelling that parses is the spelling of what it parses to.
pub proof fn lemma_version_text_of_parse(value: Seq<char>)
    ensures
        spec_parse_version(value) matches Some(v) ==> spec_version_text(v) == value,
{
}

/// Every feature spelling reads back as the feature: `parse(f.as_str()) == Ok(f)`.
pub proof fn lemma_feature_round_trip(f: LanguageFeature)
    ensures
        spec_parse_feature(spec_feature_text(f)) == Some(f),
{
    reveal_strlit("auto-unlisten");
    reveal_strlit("input-system");
    reveal_strlit("pattern-bindings");
    assert("input-system"@[0] != "auto-unlisten"@[0]);
    assert("pattern-bindings"@[0] != "auto-unlisten"@[0]);
    assert("pattern-bindings"@[0] != "input-system"@[0]);
}

/// A spelling that parses is the spelling of what it parses to.
pub proof fn lemma_feature_text_of_parse(value: Seq<char>)
    ensures
        spec_parse_feature(value) matches Some(f) ==> spec_feature_text(f) == value,
{
}

/// What the Unity project around a PrSM project provides.
#[derive(Debug, Clone, PartialEq, Eq, Structural)]
pub struct UnityCapabilities {
    pub input_system_package: bool,
}

impl Default for UnityCapabilities {
    fn default() -> (r: Self)
        ensures
            !r.input_system_package,
    {
        UnityCapabilities { input_system_package: false }
    }
}

/// The part of the package list of a Unity project (the file `Packages/` holds) that matters here: the names of its
/// `dependencies`, when that member is an object.
#[derive(Debug, Clone)]
pub struct PackageManifest {
    pub dependencies: Option<Vec<String>>,
}

/// The package that provides Unity's input system.
pub open spec fn input_system_package_name() -> Seq<char> {
    "com.unity.inputsystem"@
}

/// The input system package is one of `deps`.
pub open spec fn spec_lists_input_system(deps: Seq<String>) -> bool {
    exists|i: int| 0 <= i < deps.len() && #[trigger] deps[i]@ == input_system_package_name()
}

/// The capabilities a manifest shows: the input system package is among its dependencies.
pub open spec fn spec_unity_capabilities(manifest: Option<PackageManifest>) -> UnityCapabilities {
    UnityCapabilities {
        input_system_package: manifest matches Some(m) && m.dependencies matches Some(deps)
            && spec_lists_input_system(deps@),
    }
}

/// What a package manifest shows of the Unity project; a missing or unreadable manifest
/// shows nothing.
pub fn detect_unity_capabilities(manifest: Option<&PackageManifest>) -> (r: UnityCapabilities)
    ensures
        r == spec_unity_capabilities(match manifest { Some(m) => Some(*m), None => None }),
{
    let mut capabilities = UnityCapabilities::default();
    let deps = match manifest {
        Some(m) => match &m.dependencies {
            Some(d) => d,
            None => {
                return capabilities;
            },
        },
        None => {
            return capabilities;
        },
    };
    let mut i: usize = 0;
    while i < deps.len()
        invariant
            i <= deps@.len(),
            manifest matches Some(m) && m.dependencies == Some(*deps),
            !capabilities.input_system_package,
            forall|k: int| 0 <= k < i ==> deps@[k]@ != input_system_package_name(),
        decreases deps@.len() - i,
    {
        if str_eq(deps[i].as_str(), "com.unity.inputsystem") {
            assert(deps@[i as int]@ == input_system_package_name());
            assert(spec_lists_input_system(deps@));
            capabilities.input_system_package = true;
            return capabilities;
        }
        i = i + 1;
    }
    capabilities
}

/// What `serde_json` reads from the text of a package manifest: `None` when the text is not
/// JSON; otherwise the names of the members of its `dependencies` object, `None` when there
/// is no such member or it is not an object.
pub uninterp spec fn spec_manifest_dependencies(text: Seq<char>) -> Option<Option<Seq<Seq<char>>>>;

/// `serde_json::from_str::<Value>`, then the keys of the `dependencies` member when it is an
/// object. The outcome depends on the text alone; the contract names it without restating JSON.
#[verifier::external_body]
fn manifest_dependencies(text: &str) -> (r: Option<Option<Vec<String>>>)
    ensures
        match r {
            None => spec_manifest_dependencies(text@) is None,
            Some(None) => spec_manifest_dependencies(text@) == Some(None::<Seq<Seq<char>>>),
            Some(Some(d)) => spec_manifest_dependencies(text@) == Some(Some(d@.map_values(|s: String| s@))),
        },
{
    match serde_json::from_str::<serde_json::Value>(text) {
        Ok(value) => Some(value.get("dependencies").and_then(serde_json::Value::as_object)
            .map(|deps| deps.keys().cloned().collect())),
        Err(_) => None,
    }
}

/// The package list of a Unity project read from the text of its manifest; `None` when the
/// text is not JSON.
pub fn manifest_from_text(text: &str) -> (r: Option<PackageManifest>)
    ensures
        match spec_manifest_dependencies(text@) {
            None => r is None,
            Some(None) => r matches Some(m) && m.dependencies is None,
            Some(Some(d)) => r matches Some(m) && m.dependencies matches Some(v) && v@.map_values(|s: String| s@) == d,
        },
{
    match manifest_dependencies(text) {
        None => None,
        Some(dependencies) => Some(PackageManifest { dependencies }),
    }
}

/// The capabilities that the text of a package manifest shows (`None`: there is no manifest
/// to read): the input system package is among the dependencies of a manifest that parses.
pub fn unity_capabilities_from_manifest(text: Option<&str>) -> (r: UnityCapabilities)
    ensures
        r.input_system_package == (text matches Some(t) && spec_manifest_dependencies(t@) matches Some(Some(d))
            && d.contains(input_system_package_name())),
{
    match text {
        None => detect_unity_capabilities(None),
        Some(t) => {
            let m = manifest_from_text(t);
            proof {
                if let Some(Some(d)) = spec_manifest_dependencies(t@) {
                    let v = m->0.dependencies->0;
                    assert(spec_lists_input_system(v@) <==> d.contains(input_system_package_name())) by {
                        if spec_lists_input_system(v@) {
                            let i = choose|i: int| 0 <= i < v@.len() && #[trigger] v@[i]@ == input_system_package_name();
                            assert(d[i] == input_system_package_name());
                        }
                        if d.contains(input_system_package_name()) {
                            let i = choose|i: int| 0 <= i < d.len() && d[i] == input_system_package_name();
                            assert(v@[i]@ == input_system_package_name());
                        }
                    }
                }
            }
            match &m {
                Some(man) => detect_unity_capabilities(Some(man)),
                None => detect_unity_capabilities(None),
            }
        },
    }
}

/// The value at index `i` of `values` parses as a feature, as do all before it.
pub open spec fn spec_features_parse_upto(values: Seq<String>, n: int) -> bool {
    forall|i: int| 0 <= i < n ==> spec_parse_feature(#[trigger] values[i]@) is Some
}

/// `f` is named by one of `values`.
pub open spec fn spec_feature_named(values: Seq<String>, f: LanguageFeature) -> bool {
    exists|i: int| 0 <= i < values.len() && spec_parse_feature(#[trigger] values[i]@) == Some(f)
}

/// `fs` is in feature order, with no feature twice.
pub open spec fn spec_strictly_ordered(fs: Seq<LanguageFeature>) -> bool {
    forall|i: int, j: int| 0 <= i < j < fs.len() ==> spec_feature_rank(fs[i]) < spec_feature_rank(fs[j])
}

/// The features named by `values`, in feature order, each once; the first spelling that names
/// no feature is refused.
pub fn parse_language_features(values: &Vec<String>) -> (r: Result<Vec<LanguageFeature>, String>)
    ensures
        r is Ok <==> spec_features_parse_upto(values@, values@.len() as int),
        r matches Ok(fs) ==> spec_strictly_ordered(fs@),
        r matches Ok(fs) ==> forall|f: LanguageFeature| fs@.contains(f) <==> spec_feature_named(values@, f),
        r matches Err(e) ==> exists|j: int| 0 <= j < values@.len() && spec_features_parse_upto(values@, j)
            && spec_parse_feature(#[trigger] values@[j]@) is None && e@ == spec_feature_error(values@[j]@),
{
    let mut auto_unlisten = false;
    let mut input_system = false;
    let mut pattern_bindings = false;
    let mut i: usize = 0;
    while i < values.len()
        invariant
            i <= values@.len(),
            spec_features_parse_upto(values@, i as int),
            auto_unlisten <==> exists|k: int| 0 <= k < i && spec_parse_feature(#[trigger] values@[k]@) == Some(LanguageFeature::AutoUnlisten),
            input_system <==> exists|k: int| 0 <= k < i && spec_parse_feature(#[trigger] values@[k]@) == Some(LanguageFeature::InputSystem),
            pattern_bindings <==> exists|k: int| 0 <= k < i && spec_parse_feature(#[trigger] values@[k]@) == Some(LanguageFeature::PatternBindings),
        decreases values@.len() - i,
    {
        match LanguageFeature::parse(values[i].as_str()) {
            Ok(LanguageFeature::AutoUnlisten) => auto_unlisten = true,
            Ok(LanguageFeature::InputSystem) => input_system = true,
            Ok(LanguageFeature::PatternBindings) => pattern_bindings = true,
            Err(e) => {
                return Err(e);
            },
        }
        i = i + 1;
    }
    let mut features: Vec<LanguageFeature> = Vec::new();
    if auto_unlisten {
        features.push(LanguageFeature::AutoUnlisten);
    }
    if input_system {
        features.push(LanguageFeature::InputSystem);
    }
    if pattern_bindings {
        features.push(LanguageFeature::PatternBindings);
    }
    proof {
        assert forall|f: LanguageFeature| features@.contains(f) <==> spec_feature_named(values@, f) by {
            match f {
                LanguageFeature::AutoUnlisten => {
                    if auto_unlisten {
                        assert(features@[0] == f);
                    }
                },
                LanguageFeature::InputSystem => {
                    if input_system {
                        assert(features@[if auto_unlisten { 1int } else { 0int }] == f);
                    }
                },
                LanguageFeature::PatternBindings => {
                    if pattern_bindings {
                        assert(features@.last() == f);
                    }
                },
            }
        }
    }
    Ok(features)
}

/// `rel` appended to `base` as `Path::join` writes it: an absolute `rel` replaces `base`,
/// otherwise a `/` goes between them unless `base` is empty or ends in one.
pub open spec fn spec_join_path(base: Seq<char>, rel: Seq<char>) -> Seq<char> {
    if rel.len() > 0 && rel[0] == '/' {
        rel
    } else if base.len() == 0 || base.last() == '/' {
        base + rel
    } else {
        base + seq!['/'] + rel
    }
}

/// `rel` appended to `base` (see `spec_join_path`).
pub fn join_path(base: &str, rel: &str) -> (r: String)
    ensures
        r@ == spec_join_path(base@, rel@),
{
    let b = chars_of(base);
    let rl = chars_of(rel);
    if rl.len() > 0 && rl[0] == '/' {
        owned(rel)
    } else if b.len() == 0 || b[b.len() - 1] == '/' {
        cat2(base, rel)
    } else {
        proof {
            reveal_strlit("/");
        }
        cat3(base, "/", rel)
    }
}

/// `s` without trailing `/`s, keeping a lone `/`.
pub open spec fn spec_trim_trailing_slashes(s: Seq<char>) -> Seq<char>
    decreases s.len(),
{
    if s.len() > 1 && s.last() == '/' {
        spec_trim_trailing_slashes(s.drop_last())
    } else {
        s
    }
}

/// The index of the first `**` in `p` at or after `i`, or the length of `p`.
pub open spec fn spec_first_double_star(p: Seq<char>, i: int) -> int
    decreases p.len() - i,
{
    if i < 0 || i + 1 >= p.len() {
        p.len() as int
    } else if p[i] == '*' && p[i + 1] == '*' {
        i
    } else {
        spec_first_double_star(p, i + 1)
    }
}

/// The directory part of a source pattern: what comes before its first `**`.
pub open spec fn spec_pattern_directory(p: Seq<char>) -> Seq<char> {
    p.subrange(0, spec_first_double_star(p, 0))
}

/// The directory to watch for a source pattern: its directory part under the project root,
/// without trailing separators.
pub open spec fn spec_watch_candidate(root: Seq<char>, pattern: Seq<char>) -> Seq<char> {
    spec_trim_trailing_slashes(spec_join_path(root, spec_pattern_directory(pattern)))
}

proof fn lemma_first_double_star_bounds(p: Seq<char>, i: int)
    requires
        0 <= i,
    ensures
        i <= spec_first_double_star(p, i) <= p.len() || spec_first_double_star(p, i) == p.len(),
        0 <= spec_first_double_star(p, i) <= p.len(),
    decreases p.len() - i,
{
    if i + 1 < p.len() && !(p[i] == '*' && p[i + 1] == '*') {
        lemma_first_double_star_bounds(p, i + 1);
    }
}

/// The directory to watch for one source pattern (see `spec_watch_candidate`).
pub fn watch_candidate(root: &str, pattern: &str) -> (r: String)
    ensures
        r@ == spec_watch_candidate(root@, pattern@),
{
    let p = chars_of(pattern);
    let mut i: usize = 0;
    proof {
        lemma_first_double_star_bounds(p@, 0);
    }
    while i + 1 < p.len() && !(p[i] == '*' && p[i + 1] == '*')
        invariant
            p@ == pattern@,
            p@.len() <= isize::MAX / 4,
            i <= p@.len(),
            spec_first_double_star(p@, i as int) == spec_first_double_star(p@, 0),
        decreases p@.len() - i,
    {
        i = i + 1;
    }
    let cut = if i + 1 < p.len() { i } else { p.len() };
    let dir = string_from_chars(&p, 0, cut);
    let joined = join_path(root, dir.as_str());
    let j = chars_of(joined.as_str());
    let mut end = j.len();
    assert(j@.subrange(0, end as int) == j@);
    while end > 1 && j[end - 1] == '/'
        invariant
            end <= j@.len(),
            j@ == joined@,
            spec_trim_trailing_slashes(joined@) == spec_trim_trailing_slashes(j@.subrange(0, end as int)),
        decreases end,
    {
        proof {
            assert(j@.subrange(0, end as int).drop_last() == j@.subrange(0, end as int - 1));
        }
        end = end - 1;
    }
    proof {
        assert(j@.subrange(0, j@.len() as int) == j@);
        if end > 1 {
            assert(j@.subrange(0, end as int).last() == j@[end - 1]);
        }
    }
    string_from_chars(&j, 0, end)
}

/// The directories to watch, one per source pattern (see `spec_watch_candidate`).
pub fn watch_root_candidates(config: &PrismProject, project_root: &str) -> (r: Vec<String>)
    ensures
        r@.len() == config.source.includes@.len(),
        forall|i: int| 0 <= i < r@.len() ==> #[trigger] r@[i]@ == spec_watch_candidate(project_root@, config.source.includes@[i]@),
{
    let mut out: Vec<String> = Vec::new();
    let mut i: usize = 0;
    while i < config.source.includes.len()
        invariant
            i <= config.source.includes@.len(),
            out@.len() == i,
            forall|k: int| 0 <= k < i ==> #[trigger] out@[k]@ == spec_watch_candidate(project_root@, config.source.includes@[k]@),
        decreases config.source.includes@.len() - i,
    {
        out.push(watch_candidate(project_root, config.source.includes[i].as_str()));
        i = i + 1;
    }
    out
}

/// The order of paths: by characters, with `/` before every other character, so that a path
/// comes right before the paths below it.
pub open spec fn spec_path_rank(c: char) -> int {
    if c == '/' {
        -1
    } else {
        (c as u32) as int
    }
}

/// `a` comes before `b` in path order.
pub open spec fn spec_path_less(a: Seq<char>, b: Seq<char>) -> bool
    decreases a.len(),
{
    if a.len() == 0 {
        b.len() > 0
    } else if b.len() == 0 {
        false
    } else if spec_path_rank(a[0]) != spec_path_rank(b[0]) {
        spec_path_rank(a[0]) < spec_path_rank(b[0])
    } else {
        spec_path_less(a.drop_first(), b.drop_first())
    }
}

/// A path does not come before itself.
pub proof fn lemma_path_less_irreflexive(a: Seq<char>)
    ensures
        !spec_path_less(a, a),
    decreases a.len(),
{
    if a.len() > 0 {
        lemma_path_less_irreflexive(a.drop_first());
    }
}

/// Of two different paths, exactly one comes first.
pub proof fn lemma_path_less_total(a: Seq<char>, b: Seq<char>)
    ensures
        a != b ==> (spec_path_less(a, b) || spec_path_less(b, a)),
        !(spec_path_less(a, b) && spec_path_less(b, a)),
    decreases a.len(),
{
    if a.len() > 0 && b.len() > 0 {
        lemma_path_less_total(a.drop_first(), b.drop_first());
        if spec_path_rank(a[0]) == spec_path_rank(b[0]) {
            assert(a[0] == b[0]) by {
                vstd::utf8::char_u32_cast(a[0], a[0] as u32);
                vstd::utf8::char_u32_cast(b[0], b[0] as u32);
            }
            if a.drop_first() == b.drop_first() {
                assert(a =~= seq![a[0]] + a.drop_first());
                assert(b =~= seq![b[0]] + b.drop_first());
            }
        }
    } else if a.len() == 0 && b.len() == 0 {
        assert(a =~= b);
    }
}

/// Path order is transitive.
pub proof fn lemma_path_less_transitive(a: Seq<char>, b: Seq<char>, c: Seq<char>)
    requires
        spec_path_less(a, b),
        spec_path_less(b, c),
    ensures
        spec_path_less(a, c),
    decreases a.len(),
{
    if a.len() > 0 && b.len() > 0 && c.len() > 0 {
        if spec_path_rank(a[0]) == spec_path_rank(b[0]) && spec_path_rank(b[0]) == spec_path_rank(c[0]) {
            lemma_path_less_transitive(a.drop_first(), b.drop_first(), c.drop_first());
        }
    }
}

/// Whether `a` comes before `b` in path order.
pub fn path_less(a: &str, b: &str) -> (r: bool)
    ensures
        r == spec_path_less(a@, b@),
{
    let x = chars_of(a);
    let y = chars_of(b);
    let mut i: usize = 0;
    assert(x@.subrange(0, x@.len() as int) == x@);
    assert(y@.subrange(0, y@.len() as int) == y@);
    while i < x.len() && i < y.len()
        invariant
            x@ == a@,
            y@ == b@,
            i <= x@.len(),
            i <= y@.len(),
            spec_path_less(a@, b@) == spec_path_less(x@.subrange(i as int, x@.len() as int), y@.subrange(i as int, y@.len() as int)),
        decreases x@.len() - i,
    {
        let cx = x[i];
        let cy = y[i];
        let rx: i64 = if cx == '/' { -1 } else { (cx as u32) as i64 };
        let ry: i64 = if cy == '/' { -1 } else { (cy as u32) as i64 };
        proof {
            let xs = x@.subrange(i as int, x@.len() as int);
            let ys = y@.subrange(i as int, y@.len() as int);
            assert(xs[0] == cx && ys[0] == cy);
            assert(xs.drop_first() == x@.subrange(i as int + 1, x@.len() as int));
            assert(ys.drop_first() == y@.subrange(i as int + 1, y@.len() as int));
        }
        if rx != ry {
            return rx < ry;
        }
        i = i + 1;
    }
    i < y.len()
}

/// One of the strings of `v` is `s`.
pub open spec fn spec_has_path(v: Seq<String>, s: Seq<char>) -> bool {
    exists|k: int| 0 <= k < v.len() && #[trigger] v[k]@ == s
}

/// `s` is in strict path order: sorted, with no path twice.
pub open spec fn spec_paths_sorted(s: Seq<String>) -> bool {
    forall|i: int, j: int| 0 <= i < j < s.len() ==> spec_path_less(s[i]@, s[j]@)
}

/// Puts `x` into the sorted `paths` unless it is there already.
pub fn insert_sorted(paths: &mut Vec<String>, x: String)
    requires
        spec_paths_sorted(old(paths)@),
    ensures
        spec_paths_sorted(final(paths)@),
        forall|s: Seq<char>| #[trigger] spec_has_path(final(paths)@, s) <==> (s == x@ || spec_has_path(old(paths)@, s)),
{
    let mut i: usize = 0;
    while i < paths.len() && path_less(paths[i].as_str(), x.as_str())
        invariant
            i <= paths@.len(),
            paths@ == old(paths)@,
            spec_paths_sorted(paths@),
            forall|k: int| 0 <= k < i ==> spec_path_less(#[trigger] paths@[k]@, x@),
        decreases paths@.len() - i,
    {
        i = i + 1;
    }
    if i < paths.len() && str_eq(paths[i].as_str(), x.as_str()) {
        return;
    }
    let ghost before = paths@;
    proof {
        if i < before.len() {
            lemma_path_less_total(before[i as int]@, x@);
            assert forall|k: int| i <= k < before.len() implies spec_path_less(x@, #[trigger] before[k]@) by {
                if k > i {
                    lemma_path_less_transitive(x@, before[i as int]@, before[k]@);
                }
            }
        }
    }
    paths.insert(i, x);
    proof {
        let after = paths@;
        assert forall|a: int, b: int| 0 <= a < b < after.len() implies spec_path_less(after[a]@, after[b]@) by {
            if a < i && b == i {
            } else if a < i && b > i {
                lemma_path_less_transitive(before[a]@, x@, before[b - 1]@);
            } else if a == i {
            } else if a > i {
            } else {
            }
        }
        assert forall|s: Seq<char>| #[trigger] spec_has_path(after, s) <==> (s == x@ || spec_has_path(before, s)) by {
            if exists|k: int| 0 <= k < after.len() && #[trigger] after[k]@ == s {
                let k = choose|k: int| 0 <= k < after.len() && #[trigger] after[k]@ == s;
                if k < i {
                    assert(before[k]@ == s);
                } else if k > i {
                    assert(before[k - 1]@ == s);
                }
            }
            if s == x@ {
                assert(after[i as int]@ == s);
            } else if exists|k: int| 0 <= k < before.len() && #[trigger] before[k]@ == s {
                let k = choose|k: int| 0 <= k < before.len() && #[trigger] before[k]@ == s;
                if k < i {
                    assert(after[k]@ == s);
                } else {
                    assert(after[k + 1]@ == s);
                }
            }
        }
    }
}

/// One of the first `n` candidates exists and is `s`.
pub open spec fn spec_existing_candidate(candidates: Seq<String>, exists: Seq<bool>, n: int, s: Seq<char>) -> bool {
    exists|j: int| 0 <= j < n && exists[j] && #[trigger] candidates[j]@ == s
}

/// The watch roots: the candidate directories that exist, in path order and each once; the
/// project root when none exists.
pub fn collect_watch_roots(candidates: &Vec<String>, exists: &Vec<bool>, project_root: &str) -> (r: Vec<String>)
    requires
        candidates@.len() == exists@.len(),
    ensures
        spec_paths_sorted(r@),
        (exists|i: int| 0 <= i < exists@.len() && exists@[i]) ==> forall|s: Seq<char>|
            #[trigger] spec_has_path(r@, s) <==> spec_existing_candidate(candidates@, exists@, candidates@.len() as int, s),
        !(exists|i: int| 0 <= i < exists@.len() && exists@[i]) ==> r@.len() == 1 && r@[0]@ == project_root@,
{
    let mut roots: Vec<String> = Vec::new();
    let mut i: usize = 0;
    while i < candidates.len()
        invariant
            i <= candidates@.len(),
            candidates@.len() == exists@.len(),
            spec_paths_sorted(roots@),
            forall|s: Seq<char>| #[trigger] spec_has_path(roots@, s) <==> spec_existing_candidate(candidates@, exists@, i as int, s),
            (exists|j: int| 0 <= j < i && exists@[j]) <==> roots@.len() > 0,
        decreases candidates@.len() - i,
    {
        if exists[i] {
            let ghost old_roots = roots@;
            insert_sorted(&mut roots, candidates[i].clone());
            proof {
                assert(roots@.len() > 0) by {
                    assert(spec_has_path(roots@, candidates@[i as int]@));
                }
                assert forall|s: Seq<char>| #[trigger] spec_has_path(roots@, s) <==> spec_existing_candidate(candidates@, exists@, i + 1, s) by {
                    if s == candidates@[i as int]@ {
                        assert(exists@[i as int] && candidates@[i as int]@ == s);
                    }
                    if exists|j: int| 0 <= j < i + 1 && exists@[j] && #[trigger] candidates@[j]@ == s {
                        let j = choose|j: int| 0 <= j < i + 1 && exists@[j] && #[trigger] candidates@[j]@ == s;
                        if j < i {
                            assert(exists|j2: int| 0 <= j2 < i && exists@[j2] && #[trigger] candidates@[j2]@ == s);
                        }
                    }
                }
                assert(exists@[i as int]);
            }
        } else {
            proof {
                assert forall|s: Seq<char>| #[trigger] spec_existing_candidate(candidates@, exists@, i + 1, s)
                    <==> spec_existing_candidate(candidates@, exists@, i as int, s) by {
                    if exists|j: int| 0 <= j < i + 1 && exists@[j] && #[trigger] candidates@[j]@ == s {
                        let j = choose|j: int| 0 <= j < i + 1 && exists@[j] && #[trigger] candidates@[j]@ == s;
                        assert(j != i);
                    }
                }
                assert((exists|j: int| 0 <= j < i + 1 && exists@[j]) ==> (exists|j: int| 0 <= j < i && exists@[j])) by {
                    if exists|j: int| 0 <= j < i + 1 && exists@[j] {
                        let j = choose|j: int| 0 <= j < i + 1 && exists@[j];
                        assert(j != i);
                    }
                }
            }
        }
        i = i + 1;
    }
    if roots.len() == 0 {
        roots.push(owned(project_root));
    }
    roots
}

/// A resolved project.
#[derive(Debug, Clone)]
pub struct ProjectGraph {
    pub config: PrismProject,
    pub project_root: String,
    pub output_dir: String,
    pub output_dir_display: String,
    pub source_files: Vec<String>,
    pub watch_roots: Vec<String>,
    pub cache_dir: String,
    pub language_version: LanguageVersion,
    pub enabled_features: Vec<LanguageFeature>,
    pub unity_capabilities: UnityCapabilities,
}

impl ProjectGraph {
    /// Resolves a loaded project: `config` as read from the project file found in
    /// `project_root`, the source files its patterns select, for each source pattern whether
    /// its watch directory (`watch_root_candidates`) exists, and the text of the Unity package manifest (`None` when there is none to read).
    /// The language version and every feature must be supported.
    pub fn discover(
        config: PrismProject,
        project_root: String,
        source_files: Vec<String>,
        watch_root_exists: Vec<bool>,
        manifest_text: Option<String>,
    ) -> (r: Result<ProjectGraph, String>)
        requires
            watch_root_exists@.len() == config.source.includes@.len(),
        ensures
            r is Ok <==> (spec_parse_version(config.language.version@) is Some
                && spec_features_parse_upto(config.language.features@, config.language.features@.len() as int)),
            spec_parse_version(config.language.version@) is None
                ==> (r matches Err(e) && e@ == spec_version_error(config.language.version@)),
            r matches Err(e) ==> spec_parse_version(config.language.version@) is None || exists|j: int|
                0 <= j < config.language.features@.len() && spec_features_parse_upto(config.language.features@, j)
                && spec_parse_feature(#[trigger] config.language.features@[j]@) is None
                && e@ == spec_feature_error(config.language.features@[j]@),
            r matches Ok(g) ==> {
                &&& g.config == config
                &&& (exists|i: int| 0 <= i < watch_root_exists@.len() && watch_root_exists@[i]) ==> forall|s: Seq<char>|
                    #[trigger] spec_has_path(g.watch_roots@, s) <==> exists|j: int| 0 <= j < watch_root_exists@.len()
                        && watch_root_exists@[j] && spec_watch_candidate(project_root@, config.source.includes@[j]@) == s
                &&& !(exists|i: int| 0 <= i < watch_root_exists@.len() && watch_root_exists@[i])
                    ==> g.watch_roots@.len() == 1 && g.watch_roots@[0]@ == project_root@
                &&& Some(g.language_version) == spec_parse_version(config.language.version@)
                &&& spec_strictly_ordered(g.enabled_features@)
                &&& forall|f: LanguageFeature| g.enabled_features@.contains(f) <==> spec_feature_named(config.language.features@, f)
                &&& g.project_root@ == project_root@
                &&& g.output_dir@ == spec_join_path(project_root@, config.compiler.output_dir@)
                &&& g.output_dir_display@ == config.compiler.output_dir@
                &&& g.cache_dir@ == spec_join_path(spec_join_path(project_root@, ".prsm"@), "cache"@)
                &&& g.source_files@ == source_files@
                &&& spec_paths_sorted(g.watch_roots@)
                &&& g.unity_capabilities.input_system_package == (manifest_text matches Some(t)
                    && spec_manifest_dependencies(t@) matches Some(Some(d)) && d.contains(input_system_package_name()))
            },
    {
        let language_version = match LanguageVersion::parse(config.language.version.as_str()) {
            Ok(v) => v,
            Err(e) => {
                return Err(e);
            },
        };
        let enabled_features = match parse_language_features(&config.language.features) {
            Ok(fs) => fs,
            Err(e) => {
                return Err(e);
            },
        };
        let candidates = watch_root_candidates(&config, project_root.as_str());
        let watch_roots = collect_watch_roots(&candidates, &watch_root_exists, project_root.as_str());
        proof {
            assert forall|s: Seq<char>| #[trigger] spec_existing_candidate(candidates@, watch_root_exists@, candidates@.len() as int, s)
                <==> exists|j: int| 0 <= j < watch_root_exists@.len()
                    && watch_root_exists@[j] && spec_watch_candidate(project_root@, config.source.includes@[j]@) == s by {
                if spec_existing_candidate(candidates@, watch_root_exists@, candidates@.len() as int, s) {
                    let j = choose|j: int| 0 <= j < candidates@.len() && watch_root_exists@[j] && #[trigger] candidates@[j]@ == s;
                    assert(spec_watch_candidate(project_root@, config.source.includes@[j]@) == s);
                }
                if exists|j: int| 0 <= j < watch_root_exists@.len()
                    && watch_root_exists@[j] && spec_watch_candidate(project_root@, config.source.includes@[j]@) == s {
                    let j = choose|j: int| 0 <= j < watch_root_exists@.len()
                        && watch_root_exists@[j] && spec_watch_candidate(project_root@, config.source.includes@[j]@) == s;
                    assert(candidates@[j]@ == s);
                }
            }
        }
        let unity_capabilities = match &manifest_text {
            Some(t) => unity_capabilities_from_manifest(Some(t.as_str())),
            None => unity_capabilities_from_manifest(None),
        };
        let output_dir = join_path(project_root.as_str(), config.compiler.output_dir.as_str());
        let prsm_dir = join_path(project_root.as_str(), ".prsm");
        let cache_dir = join_path(prsm_dir.as_str(), "cache");
        let output_dir_display = config.compiler.output_dir.clone();
        Ok(ProjectGraph {
            output_dir_display,
            config,
            project_root,
            output_dir,
            source_files,
            watch_roots,
            cache_dir,
            language_version,
            enabled_features,
            unity_capabilities,
        })
    }

    /// The spellings of the enabled features, in order.
    pub fn feature_names(&self) -> (r: Vec<&'static str>)
        ensures
            r@.len() == self.enabled_features@.len(),
            forall|i: int| 0 <= i < r@.len() ==> (#[trigger] r@[i])@ == spec_feature_text(self.enabled_features@[i]),
    {
        let mut names: Vec<&'static str> = Vec::new();
        let mut i: usize = 0;
        while i < self.enabled_features.len()
            invariant
                i <= self.enabled_features@.len(),
                names@.len() == i,
                forall|k: int| 0 <= k < i ==> (#[trigger] names@[k])@ == spec_feature_text(self.enabled_features@[k]),
            decreases self.enabled_features@.len() - i,
        {
            names.push(self.enabled_features[i].as_str());
            i = i + 1;
        }
        names
    }
}

} // verus!
