//! The files a query runs on: each source file of the project is read from its editor
//! buffer's copy on disk while the editor has it open, and answers are mapped back to the
//! file the user sees.
use vstd::prelude::*;

use crate::lsp::members::spec_names;
use crate::lsp::workspace::{normalize_path, spec_normalize_path};
use crate::project_graph::{spec_join_path, ProjectGraph};
use crate::text::{owned, str_eq};

verus! {

/// A list of (key, value) paths read as a map: a later pair for a key replaces an
/// earlier one.
pub open spec fn spec_pairs_map(v: Seq<(String, String)>) -> Map<Seq<char>, Seq<char>>
    decreases v.len(),
{
    if v.len() == 0 {
        Map::empty()
    } else {
        spec_pairs_map(v.drop_last()).insert(v.last().0@, v.last().1@)
    }
}

/// The value of `key` in a map of paths, when it has one.
pub open spec fn spec_lookup(m: Map<Seq<char>, Seq<char>>, key: Seq<char>) -> Option<Seq<char>> {
    if m.contains_key(key) { Some(m[key]) } else { None }
}

/// The value of `key` in a list of pairs read as a map (see `spec_pairs_map`).
pub fn lookup_path(pairs: &Vec<(String, String)>, key: &str) -> (r: Option<String>)
    ensures
        match r {
            Some(v) => spec_lookup(spec_pairs_map(pairs@), key@) == Some(v@),
            None => spec_lookup(spec_pairs_map(pairs@), key@) is None,
        },
{
    let mut i: usize = pairs.len();
    proof {
        assert(pairs@.take(pairs@.len() as int) =~= pairs@);
    }
    while i > 0
        invariant
            i <= pairs@.len(),
            spec_lookup(spec_pairs_map(pairs@), key@) == spec_lookup(spec_pairs_map(pairs@.take(i as int)), key@),
        decreases i,
    {
        proof {
            assert(pairs@.take(i as int).drop_last() =~= pairs@.take(i - 1));
            assert(pairs@.take(i as int).last() == pairs@[i - 1]);
        }
        if str_eq(pairs[i - 1].0.as_str(), key) {
            return Some(owned(pairs[i - 1].1.as_str()));
        }
        i = i - 1;
    }
    None
}

/// The files of a query and how paths map between the user's files and the files read.
pub struct QueryContext {
    pub source_files: Vec<String>,
    pub original_to_runtime: Vec<(String, String)>,
    pub runtime_to_original: Vec<(String, String)>,
    pub output_dir: Option<String>,
}

/// The file read for a user file: the open buffer's copy when the editor has it open.
pub open spec fn spec_runtime_of(overlays: Map<Seq<char>, Seq<char>>, original: Seq<char>) -> Seq<char> {
    if overlays.contains_key(original) { overlays[original] } else { original }
}

/// The state of a context as plain values: the files seen, the map from user files to the
/// files read, the map back, and the files read, in order.
pub type ContextModel = (Seq<Seq<char>>, Map<Seq<char>, Seq<char>>, Map<Seq<char>, Seq<char>>, Seq<Seq<char>>);

/// A context after the files `files` are added in order, starting empty: each file, made
/// absolute, counts once; the file read for it is recorded both ways.
pub open spec fn spec_context_after(overlays: Map<Seq<char>, Seq<char>>, cwd: Seq<char>, files: Seq<Seq<char>>) -> ContextModel
    decreases files.len(),
{
    if files.len() == 0 {
        (Seq::empty(), Map::empty(), Map::empty(), Seq::empty())
    } else {
        spec_push_file(overlays, cwd, spec_context_after(overlays, cwd, files.drop_last()), files.last())
    }
}

/// A context after one more file is added.
pub open spec fn spec_push_file(overlays: Map<Seq<char>, Seq<char>>, cwd: Seq<char>, c: ContextModel, file: Seq<char>) -> ContextModel {
    let original = spec_normalize_path(file, cwd);
    if c.0.contains(original) {
        c
    } else {
        let runtime = spec_runtime_of(overlays, original);
        (c.0.push(original), c.1.insert(original, runtime), c.2.insert(runtime, original), c.3.push(runtime))
    }
}

impl QueryContext {
    /// The context as plain values, together with the files seen so far.
    pub open spec fn model(&self, seen: Seq<String>) -> ContextModel {
        (spec_names(seen), spec_pairs_map(self.original_to_runtime@), spec_pairs_map(self.runtime_to_original@), spec_names(self.source_files@))
    }

    /// Adds one source file (see `spec_push_file`); `overlays` maps the files open in the
    /// editor to their buffers' copies, `seen` lists the files added so far.
    pub fn push_source_file(&mut self, source_file: &str, overlays: &Vec<(String, String)>, seen: &mut Vec<String>, cwd: &str)
        ensures
            final(self).model(final(seen)@) == spec_push_file(spec_pairs_map(overlays@), cwd@, old(self).model(old(seen)@), source_file@),
            final(self).output_dir == old(self).output_dir,
    {
        let original = normalize_path(source_file, cwd);
        let mut k: usize = 0;
        while k < seen.len()
            invariant
                k <= seen@.len(),
                original@ == spec_normalize_path(source_file@, cwd@),
                *self == *old(self),
                seen@ == old(seen)@,
                forall|j: int| 0 <= j < k ==> seen@[j]@ != original@,
            decreases seen@.len() - k,
        {
            if str_eq(seen[k].as_str(), original.as_str()) {
                proof {
                    assert(spec_names(seen@)[k as int] == original@);
                    assert(spec_names(seen@).contains(original@));
                }
                return;
            }
            k = k + 1;
        }
        proof {
            assert forall|j: int| 0 <= j < spec_names(seen@).len() implies spec_names(seen@)[j] != original@ by {
                assert(spec_names(seen@)[j] == seen@[j]@);
            }
        }
        let runtime = match lookup_path(overlays, original.as_str()) {
            Some(p) => p,
            None => owned(original.as_str()),
        };
        let ghost before_seen = seen@;
        let ghost o2r = self.original_to_runtime@;
        let ghost r2o = self.runtime_to_original@;
        let ghost files = self.source_files@;
        seen.push(owned(original.as_str()));
        self.original_to_runtime.push((owned(original.as_str()), owned(runtime.as_str())));
        self.runtime_to_original.push((owned(runtime.as_str()), owned(original.as_str())));
        self.source_files.push(runtime);
        proof {
            assert(spec_names(seen@) =~= spec_names(before_seen).push(original@));
            assert(self.original_to_runtime@.drop_last() =~= o2r);
            assert(self.runtime_to_original@.drop_last() =~= r2o);
            assert(spec_names(self.source_files@) =~= spec_names(files).push(spec_runtime_of(spec_pairs_map(overlays@), original@)));
        }
    }

    /// The context of a query on `source_files`, then `preferred_file` if given (see
    /// `spec_context_after`).
    pub fn from_source_files(source_files: &Vec<String>, overlays: &Vec<(String, String)>, preferred_file: Option<&str>, cwd: &str) -> (r: QueryContext)
        ensures
            exists|seen: Seq<String>| r.model(seen) == spec_context_after(spec_pairs_map(overlays@), cwd@,
                match preferred_file {
                    Some(p) => spec_names(source_files@).push(p@),
                    None => spec_names(source_files@),
                }),
            r.output_dir is None,
    {
        let mut context = QueryContext {
            source_files: Vec::new(),
            original_to_runtime: Vec::new(),
            runtime_to_original: Vec::new(),
            output_dir: None,
        };
        let mut seen: Vec<String> = Vec::new();
        let ghost names = spec_names(source_files@);
        proof {
            assert(context.model(seen@) =~= spec_context_after(spec_pairs_map(overlays@), cwd@, names.take(0)));
        }
        let mut i: usize = 0;
        while i < source_files.len()
            invariant
                i <= source_files@.len(),
                names == spec_names(source_files@),
                context.output_dir is None,
                context.model(seen@) == spec_context_after(spec_pairs_map(overlays@), cwd@, names.take(i as int)),
            decreases source_files@.len() - i,
        {
            proof {
                assert(names.take(i + 1).drop_last() =~= names.take(i as int));
                assert(names.take(i + 1).last() == source_files@[i as int]@);
            }
            context.push_source_file(source_files[i].as_str(), overlays, &mut seen, cwd);
            i = i + 1;
        }
        proof {
            assert(names.take(source_files@.len() as int) =~= names);
        }
        match preferred_file {
            Some(p) => {
                proof {
                    assert(names.push(p@).drop_last() =~= names);
                }
                context.push_source_file(p, overlays, &mut seen, cwd);
            },
            None => {},
        }
        context
    }

    /// The context of a query on a project: its sources, then `preferred_file`, with the
    /// project's output directory.
    pub fn from_project_graph(graph: &ProjectGraph, overlays: &Vec<(String, String)>, preferred_file: Option<&str>, cwd: &str) -> (r: QueryContext)
        ensures
            exists|seen: Seq<String>| r.model(seen) == spec_context_after(spec_pairs_map(overlays@), cwd@,
                match preferred_file {
                    Some(p) => spec_names(graph.source_files@).push(p@),
                    None => spec_names(graph.source_files@),
                }),
            r.output_dir matches Some(d) && d@ == spec_normalize_path(graph.output_dir@, cwd@),
    {
        let mut context = QueryContext::from_source_files(&graph.source_files, overlays, preferred_file, cwd);
        let ghost files = match preferred_file {
            Some(p) => spec_names(graph.source_files@).push(p@),
            None => spec_names(graph.source_files@),
        };
        let ghost w = choose|seen: Seq<String>| context.model(seen) == spec_context_after(spec_pairs_map(overlays@), cwd@, files);
        context.output_dir = Some(normalize_path(graph.output_dir.as_str(), cwd));
        proof {
            assert(context.model(w) == spec_context_after(spec_pairs_map(overlays@), cwd@, files));
        }
        context
    }

    /// The file read for user file `original_path`.
    pub fn runtime_path(&self, original_path: &str, cwd: &str) -> (r: String)
        ensures
            r@ == match spec_lookup(spec_pairs_map(self.original_to_runtime@), spec_normalize_path(original_path@, cwd@)) {
                Some(p) => p,
                None => spec_normalize_path(original_path@, cwd@),
            },
    {
        let n = normalize_path(original_path, cwd);
        match lookup_path(&self.original_to_runtime, n.as_str()) {
            Some(p) => p,
            None => n,
        }
    }

    /// The user file that file `runtime_path` was read for.
    pub fn original_path(&self, runtime_path: &str, cwd: &str) -> (r: String)
        ensures
            r@ == match spec_lookup(spec_pairs_map(self.runtime_to_original@), spec_normalize_path(runtime_path@, cwd@)) {
                Some(p) => p,
                None => spec_normalize_path(runtime_path@, cwd@),
            },
    {
        let n = normalize_path(runtime_path, cwd);
        match lookup_path(&self.runtime_to_original, n.as_str()) {
            Some(p) => p,
            None => n,
        }
    }
}


// ── Mapping there and back ───────────────────────────────────────

/// A path made absolute against an absolute working directory is absolute.
pub proof fn lemma_normalized_is_absolute(path: Seq<char>, cwd: Seq<char>)
    requires
        cwd.len() > 0 && cwd[0] == '/',
    ensures
        spec_normalize_path(path, cwd).len() > 0 && spec_normalize_path(path, cwd)[0] == '/',
{
    if !(path.len() > 0 && path[0] == '/') {
        if cwd.last() == '/' {
            assert((cwd + path)[0] == cwd[0]);
        } else {
            assert((cwd + seq!['/'] + path)[0] == cwd[0]);
        }
    }
}

/// The buffer copies are absolute, distinct, and none is the absolute path of one of the
/// files.
pub open spec fn spec_copies_apart(overlays: Map<Seq<char>, Seq<char>>, cwd: Seq<char>, files: Seq<Seq<char>>) -> bool {
    &&& forall|o: Seq<char>| #[trigger] overlays.contains_key(o) ==> overlays[o].len() > 0 && overlays[o][0] == '/'
    &&& forall|a: Seq<char>, b: Seq<char>| #[trigger] overlays.contains_key(a) && #[trigger] overlays.contains_key(b) && a != b
        ==> overlays[a] != overlays[b]
    &&& forall|o: Seq<char>, k: int| #[trigger] overlays.contains_key(o) && 0 <= k < files.len()
        ==> overlays[o] != spec_normalize_path(#[trigger] files[k], cwd)
}

proof fn lemma_context_facts(overlays: Map<Seq<char>, Seq<char>>, cwd: Seq<char>, files: Seq<Seq<char>>)
    requires
        spec_copies_apart(overlays, cwd, files),
    ensures
        forall|o: Seq<char>| #[trigger] spec_context_after(overlays, cwd, files).0.contains(o)
            ==> exists|k: int| 0 <= k < files.len() && o == spec_normalize_path(#[trigger] files[k], cwd),
        forall|k: int| 0 <= k < files.len() ==> {
            let c = spec_context_after(overlays, cwd, files);
            let o = spec_normalize_path(#[trigger] files[k], cwd);
            &&& c.0.contains(o)
            &&& c.1.contains_key(o) && c.1[o] == spec_runtime_of(overlays, o)
            &&& c.2.contains_key(spec_runtime_of(overlays, o)) && c.2[spec_runtime_of(overlays, o)] == o
        },
    decreases files.len(),
{
    if files.len() > 0 {
        let prev_files = files.drop_last();
        assert(spec_copies_apart(overlays, cwd, prev_files)) by {
            assert forall|o: Seq<char>, k: int| #[trigger] overlays.contains_key(o) && 0 <= k < prev_files.len()
                implies overlays[o] != spec_normalize_path(#[trigger] prev_files[k], cwd) by {
                assert(prev_files[k] == files[k]);
            }
        }
        lemma_context_facts(overlays, cwd, prev_files);
        let c = spec_context_after(overlays, cwd, prev_files);
        let g = files.last();
        let o = spec_normalize_path(g, cwd);
        let n = files.len() - 1;
        // Distinct files seen so far are read from distinct files.
        assert forall|x: Seq<char>| #[trigger] c.0.contains(x) && x != o
            implies spec_runtime_of(overlays, x) != spec_runtime_of(overlays, o) by {
            let k = choose|k: int| 0 <= k < prev_files.len() && x == spec_normalize_path(#[trigger] prev_files[k], cwd);
            assert(prev_files[k] == files[k]);
            if overlays.contains_key(x) && !overlays.contains_key(o) {
                assert(overlays[x] != spec_normalize_path(files[n], cwd));
            } else if !overlays.contains_key(x) && overlays.contains_key(o) {
                assert(overlays[o] != spec_normalize_path(files[k], cwd));
            }
        }
        let c2 = spec_context_after(overlays, cwd, files);
        assert(files.drop_last() == prev_files);
        assert(c2 == spec_push_file(overlays, cwd, c, g));
        assert forall|k: int| 0 <= k < files.len() implies {
            let x = spec_normalize_path(#[trigger] files[k], cwd);
            &&& c2.0.contains(x)
            &&& c2.1.contains_key(x) && c2.1[x] == spec_runtime_of(overlays, x)
            &&& c2.2.contains_key(spec_runtime_of(overlays, x)) && c2.2[spec_runtime_of(overlays, x)] == x
        } by {
            let x = spec_normalize_path(files[k], cwd);
            if c.0.contains(o) {
                assert(c2 == c);
                if k < n {
                    assert(prev_files[k] == files[k]);
                } else {
                    let j = choose|j: int| 0 <= j < prev_files.len() && o == spec_normalize_path(#[trigger] prev_files[j], cwd);
                    assert(prev_files[j] == files[j]);
                }
            } else {
                let rt = spec_runtime_of(overlays, o);
                assert(c2.0 == c.0.push(o));
                assert(c2.1 == c.1.insert(o, rt));
                assert(c2.2 == c.2.insert(rt, o));
                if k < n {
                    assert(prev_files[k] == files[k]);
                    assert(c.0.contains(x));
                    assert(x != o);
                    assert(spec_runtime_of(overlays, x) != rt);
                    assert(c2.0[c.0.len() as int] == o);
                    let j = choose|j: int| 0 <= j < c.0.len() && c.0[j] == x;
                    assert(c2.0[j] == x);
                } else {
                    assert(c2.0[c.0.len() as int] == o);
                }
            }
        }
        assert forall|x: Seq<char>| #[trigger] spec_context_after(overlays, cwd, files).0.contains(x)
            implies exists|k: int| 0 <= k < files.len() && x == spec_normalize_path(#[trigger] files[k], cwd) by {
            if !c.0.contains(o) {
                assert(c2.0 == c.0.push(o));
                if x != o {
                    let j = choose|j: int| 0 <= j < c2.0.len() && c2.0[j] == x;
                    assert(j < c.0.len());
                    assert(c.0[j] == x);
                }
            }
            if c.0.contains(x) {
                let k = choose|k: int| 0 <= k < prev_files.len() && x == spec_normalize_path(#[trigger] prev_files[k], cwd);
                assert(prev_files[k] == files[k]);
            } else {
                assert(x == spec_normalize_path(files[n], cwd));
            }
        }
    }
}

/// Law: in the context of a query, a user file mapped to the file read for it and back is
/// the user file again (`original_path` undoes `runtime_path`), when the working
/// directory is absolute and the editor's buffer copies are absolute, distinct, and apart
/// from the project's files.
pub proof fn lemma_context_round_trip(overlays: Map<Seq<char>, Seq<char>>, cwd: Seq<char>, files: Seq<Seq<char>>, f: Seq<char>)
    requires
        cwd.len() > 0 && cwd[0] == '/',
        files.contains(f),
        spec_copies_apart(overlays, cwd, files),
    ensures
        ({
            let c = spec_context_after(overlays, cwd, files);
            let original = spec_normalize_path(f, cwd);
            let runtime = match spec_lookup(c.1, original) {
                Some(p) => p,
                None => original,
            };
            spec_lookup(c.2, spec_normalize_path(runtime, cwd)) == Some(original)
        }),
{
    lemma_context_facts(overlays, cwd, files);
    let k = choose|k: int| 0 <= k < files.len() && files[k] == f;
    let original = spec_normalize_path(files[k], cwd);
    lemma_normalized_is_absolute(f, cwd);
    let runtime = spec_runtime_of(overlays, original);
    if overlays.contains_key(original) {
        assert(overlays[original][0] == '/');
    }
    assert(spec_normalize_path(runtime, cwd) == runtime);
}

} // verus!
