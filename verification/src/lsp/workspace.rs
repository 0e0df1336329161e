//! Where the language server looks: the workspace roots an editor announces, and the
//! directories that may hold Unity's managed assemblies.
use vstd::prelude::*;
use crate::text::{owned, spec_trim, trim_text};
use crate::project_graph::{insert_sorted, join_path, spec_has_path, spec_join_path, spec_paths_sorted};

verus! {

/// A path made absolute against the working directory: an absolute path (starting with `/`)
/// is kept, any other is joined to `cwd`.
pub open spec fn spec_normalize_path(path: Seq<char>, cwd: Seq<char>) -> Seq<char> {
    if path.len() > 0 && path[0] == '/' { path } else { spec_join_path(cwd, path) }
}

/// `path` made absolute against `cwd`.
pub fn normalize_path(path: &str, cwd: &str) -> (r: String)
    ensures
        r@ == spec_normalize_path(path@, cwd@),
{
    let chars = crate::text::chars_of(path);
    if chars.len() > 0 && chars[0] == '/' {
        owned(path)
    } else {
        join_path(cwd, path)
    }
}

/// The workspace roots from an `initialize` request (the paths of the folder URIs, of the
/// root URI, and the root path), each made absolute against `cwd`: the workspace folders;
/// when there are none, the root URI's path; when there is none, the root path. Sorted in
/// path order, each once.
pub open spec fn spec_workspace_roots(folders: Seq<String>, root_uri_path: Option<Seq<char>>, root_path: Option<Seq<char>>, cwd: Seq<char>, p: Seq<char>) -> bool {
    if folders.len() > 0 {
        exists|k: int| 0 <= k < folders.len() && p == #[trigger] spec_normalize_path(folders[k]@, cwd)
    } else {
        match root_uri_path {
            Some(u) => p == spec_normalize_path(u, cwd),
            None => match root_path {
                Some(r) => p == spec_normalize_path(r, cwd),
                None => false,
            },
        }
    }
}

/// The workspace roots, from the folder paths, the root URI's path and the root path.
pub fn choose_workspace_roots(folders: &Vec<String>, root_uri_path: Option<String>, root_path: Option<String>, cwd: &str) -> (r: Vec<String>)
    ensures
        spec_paths_sorted(r@),
        forall|p: Seq<char>| #[trigger] spec_has_path(r@, p) <==> spec_workspace_roots(folders@,
            match root_uri_path { Some(u) => Some(u@), None => None }, match root_path { Some(u) => Some(u@), None => None }, cwd@, p),
{
    let mut roots: Vec<String> = Vec::new();
    if folders.len() > 0 {
        let mut i: usize = 0;
        while i < folders.len()
            invariant
                i <= folders@.len(),
                spec_paths_sorted(roots@),
                forall|p: Seq<char>| #[trigger] spec_has_path(roots@, p) <==>
                    exists|k: int| 0 <= k < i && p == #[trigger] spec_normalize_path(folders@[k]@, cwd@),
            decreases folders@.len() - i,
        {
            let ghost before = roots@;
            insert_sorted(&mut roots, normalize_path(folders[i].as_str(), cwd));
            proof {
                assert forall|p: Seq<char>| #[trigger] spec_has_path(roots@, p) <==>
                    exists|k: int| 0 <= k < i + 1 && p == #[trigger] spec_normalize_path(folders@[k]@, cwd@) by {
                    if p == spec_normalize_path(folders@[i as int]@, cwd@) {
                        assert(spec_has_path(roots@, p));
                    }
                    if spec_has_path(before, p) {
                        let k = choose|k: int| 0 <= k < i && p == #[trigger] spec_normalize_path(folders@[k]@, cwd@);
                        assert(0 <= k < i + 1);
                    }
                }
            }
            i = i + 1;
        }
        return roots;
    }
    match root_uri_path {
        Some(u) => {
            insert_sorted(&mut roots, normalize_path(u.as_str(), cwd));
            return roots;
        },
        None => {},
    }
    match root_path {
        Some(r) => {
            insert_sorted(&mut roots, normalize_path(r.as_str(), cwd));
        },
        None => {},
    }
    roots
}

/// The directories searched for Unity's managed assemblies, each given directory made
/// absolute against `cwd`: the managed directory itself; below the editor directory
/// `Data/Managed`, `Data/Managed/UnityEngine`, `Managed`, `Managed/UnityEngine`; and, when
/// the project names a Unity installation (a non-blank `target_unity`, trimmed), it and the
/// same places below it and below its `Editor` directory. Sorted in path order, each once.
pub open spec fn spec_unity_managed_candidate(managed_env: Option<Seq<char>>, editor_env: Option<Seq<char>>, target_unity: Seq<char>, cwd: Seq<char>, p: Seq<char>) -> bool {
    let managed_dir = match managed_env { Some(m) => Some(spec_normalize_path(m, cwd)), None => None };
    let editor_dir = match editor_env { Some(e) => Some(spec_normalize_path(e, cwd)), None => None };
    let target = if spec_trim(target_unity).len() > 0 { Some(spec_normalize_path(spec_trim(target_unity), cwd)) } else { None };
    ||| managed_dir == Some(p)
    ||| (editor_dir matches Some(e) && (
        p == spec_join_path(spec_join_path(e, "Data"@), "Managed"@)
        || p == spec_join_path(spec_join_path(spec_join_path(e, "Data"@), "Managed"@), "UnityEngine"@)
        || p == spec_join_path(e, "Managed"@)
        || p == spec_join_path(spec_join_path(e, "Managed"@), "UnityEngine"@)))
    ||| (target matches Some(b) && (
        p == b
        || p == spec_join_path(spec_join_path(b, "Data"@), "Managed"@)
        || p == spec_join_path(spec_join_path(spec_join_path(b, "Data"@), "Managed"@), "UnityEngine"@)
        || p == spec_join_path(spec_join_path(spec_join_path(b, "Editor"@), "Data"@), "Managed"@)
        || p == spec_join_path(spec_join_path(spec_join_path(spec_join_path(b, "Editor"@), "Data"@), "Managed"@), "UnityEngine"@)))
}

/// Adds `x` to the sorted paths and records that the set grew by `x` alone.
fn add_path(paths: &mut Vec<String>, x: String)
    requires
        spec_paths_sorted(old(paths)@),
    ensures
        spec_paths_sorted(final(paths)@),
        forall|s: Seq<char>| #[trigger] spec_has_path(final(paths)@, s) <==> (s == x@ || spec_has_path(old(paths)@, s)),
{
    insert_sorted(paths, x);
}

/// The candidate directories of Unity's managed assemblies (see
/// `spec_unity_managed_candidate`), from the managed and editor directories named in the
/// environment, the project's Unity installation (blank when it names none) and the working
/// directory.
pub fn candidate_unity_managed_directories(managed_env: Option<String>, editor_env: Option<String>, target_unity: &str, cwd: &str) -> (r: Vec<String>)
    ensures
        spec_paths_sorted(r@),
        forall|p: Seq<char>| #[trigger] spec_has_path(r@, p) <==> spec_unity_managed_candidate(
            match managed_env { Some(u) => Some(u@), None => None },
            match editor_env { Some(u) => Some(u@), None => None },
            target_unity@, cwd@, p),
{
    let mut dirs: Vec<String> = Vec::new();
    match &managed_env {
        Some(m) => add_path(&mut dirs, normalize_path(m.as_str(), cwd)),
        None => {},
    }
    let editor_dir = match &editor_env {
        Some(e) => Some(normalize_path(e.as_str(), cwd)),
        None => None,
    };
    let trimmed = trim_text(&owned(target_unity));
    let target = if trimmed.as_str().is_empty() { None } else { Some(normalize_path(trimmed.as_str(), cwd)) };
    match &editor_dir {
        Some(e) => {
            let data = join_path(e.as_str(), "Data");
            let data_managed = join_path(data.as_str(), "Managed");
            let data_engine = join_path(data_managed.as_str(), "UnityEngine");
            let managed = join_path(e.as_str(), "Managed");
            let managed_engine = join_path(managed.as_str(), "UnityEngine");
            add_path(&mut dirs, data_managed);
            add_path(&mut dirs, data_engine);
            add_path(&mut dirs, managed);
            add_path(&mut dirs, managed_engine);
        },
        None => {},
    }
    match &target {
        Some(b) => {
            let base = b.as_str();
            let data = join_path(base, "Data");
            let data_managed = join_path(data.as_str(), "Managed");
            let data_engine = join_path(data_managed.as_str(), "UnityEngine");
            let editor = join_path(base, "Editor");
            let editor_data = join_path(editor.as_str(), "Data");
            let editor_managed = join_path(editor_data.as_str(), "Managed");
            let editor_engine = join_path(editor_managed.as_str(), "UnityEngine");
            add_path(&mut dirs, owned(base));
            add_path(&mut dirs, data_managed);
            add_path(&mut dirs, data_engine);
            add_path(&mut dirs, editor_managed);
            add_path(&mut dirs, editor_engine);
        },
        None => {},
    }
    dirs
}

} // verus!
