//! What the PrSM language server computes: code actions (organizing `using` lines, explicit
//! type arguments), completion, hover text, symbol search and outlines, renames, and the
//! namespaces a file uses. This module holds the core type names and namespaces and the
//! scan of the namespaces a syntax tree uses.
use vstd::prelude::*;

pub mod intrinsic;
pub mod organize;
pub mod type_args;
pub mod kinds;
pub mod names;
pub mod sidecar;
pub mod completion;
pub mod catalog;
pub mod members;
pub mod items;
pub mod usage;
pub mod search;
pub mod hover;
pub mod rename;
pub mod context;
pub mod generated;
pub mod outline;
pub mod ranges;
pub mod symbols;
pub mod workspace;

use crate::token::{Position, Span};
use crate::ast::{
    Annotation, Arg, Block, CatchClause, Decl, ElseBranch, EnumEntry, EnumParam, Expr, File, FuncBody,
    LambdaBody, Member, Param, PreprocessorArm, StateDecl, Stmt, StringPart, TypeRef, WaitForm, WhenBody,
    WhenBranch, WhenPattern,
};
use crate::lsp::usage::{
    alternative_uses, annotation_uses, arg_uses, arm_uses, catch_uses, entry_uses, enum_param_uses, pair_uses,
    param_uses, part_uses, state_uses, update_uses,
    alternatives_use, annotations_use, args_use, arms_use, block_uses, branch_uses, branches_use, catches_use,
    decl_uses, entries_use, enum_params_use, expr_uses, exprs_use, free_call_uses, func_body_uses, member_uses,
    members_use, name_marks, names_mark, opt_block_uses, opt_boxed_expr_uses, opt_expr_uses, opt_type_ref_uses,
    pairs_use, params_use, parts_use, pattern_uses, receiver_uses, states_use, stmt_uses, stmts_use,
    type_ref_uses, type_refs_use, updates_use,
};
use crate::text::{
    spec_holds_text,
    owned, cat2, cat3, trim_text, trim_end_char, after_last, before_first, contains_char,
    contains_str, starts_with, eq_ignore_ascii_case, str_eq, spec_trim, spec_trim_end_char,
    spec_after_last, spec_before_first, spec_contains_seq, spec_starts_with,
    spec_eq_ignore_ascii_case,
};

verus! {

// ── Known types and their namespaces ─────────────────────────────

/// The bare name of a type: trimmed, without `?`, qualifier or type arguments.
pub open spec fn spec_canonical_type_ident(ty_name: Seq<char>) -> Seq<char> {
    spec_trim(spec_before_first(spec_after_last(spec_trim_end_char(spec_trim(ty_name), '?'), '.'), '<'))
}

/// The bare name of a type (see `spec_canonical_type_ident`): `UnityEngine.UI.Button?` gives
/// `Button`, `List<Int>` gives `List`.
pub fn canonical_type_ident(ty_name: &str) -> (r: String)
    ensures
        r@ == spec_canonical_type_ident(ty_name@),
{
    let trimmed = trim_text(&owned(ty_name));
    let without_nullable = trim_end_char(trimmed.as_str(), '?');
    let without_namespace = after_last(without_nullable.as_str(), '.');
    let head = before_first(without_namespace.as_str(), '<');
    trim_text(&head)
}

pub open spec fn spec_core_namespace_of(canonical: Seq<char>) -> Option<Seq<char>> {
    if spec_eq_ignore_ascii_case(canonical, "MonoBehaviour"@) {
        Some("UnityEngine"@)
    } else if spec_eq_ignore_ascii_case(canonical, "GameObject"@) {
        Some("UnityEngine"@)
    } else if spec_eq_ignore_ascii_case(canonical, "Transform"@) {
        Some("UnityEngine"@)
    } else if spec_eq_ignore_ascii_case(canonical, "Rigidbody"@) {
        Some("UnityEngine"@)
    } else if spec_eq_ignore_ascii_case(canonical, "Animator"@) {
        Some("UnityEngine"@)
    } else if spec_eq_ignore_ascii_case(canonical, "Collider"@) {
        Some("UnityEngine"@)
    } else if spec_eq_ignore_ascii_case(canonical, "Collision"@) {
        Some("UnityEngine"@)
    } else if spec_eq_ignore_ascii_case(canonical, "Camera"@) {
        Some("UnityEngine"@)
    } else if spec_eq_ignore_ascii_case(canonical, "AudioSource"@) {
        Some("UnityEngine"@)
    } else if spec_eq_ignore_ascii_case(canonical, "SpriteRenderer"@) {
        Some("UnityEngine"@)
    } else if spec_eq_ignore_ascii_case(canonical, "Input"@) {
        Some("UnityEngine"@)
    } else if spec_eq_ignore_ascii_case(canonical, "Time"@) {
        Some("UnityEngine"@)
    } else if spec_eq_ignore_ascii_case(canonical, "Debug"@) {
        Some("UnityEngine"@)
    } else if spec_eq_ignore_ascii_case(canonical, "Physics"@) {
        Some("UnityEngine"@)
    } else if spec_eq_ignore_ascii_case(canonical, "Screen"@) {
        Some("UnityEngine"@)
    } else if spec_eq_ignore_ascii_case(canonical, "Cursor"@) {
        Some("UnityEngine"@)
    } else if spec_eq_ignore_ascii_case(canonical, "Resources"@) {
        Some("UnityEngine"@)
    } else if spec_eq_ignore_ascii_case(canonical, "PlayerPrefs"@) {
        Some("UnityEngine"@)
    } else if spec_eq_ignore_ascii_case(canonical, "Mathf"@) {
        Some("UnityEngine"@)
    } else if spec_eq_ignore_ascii_case(canonical, "Vector3"@) {
        Some("UnityEngine"@)
    } else if spec_eq_ignore_ascii_case(canonical, "Vector2"@) {
        Some("UnityEngine"@)
    } else if spec_eq_ignore_ascii_case(canonical, "Color"@) {
        Some("UnityEngine"@)
    } else if spec_eq_ignore_ascii_case(canonical, "Quaternion"@) {
        Some("UnityEngine"@)
    } else if spec_eq_ignore_ascii_case(canonical, "Application"@) {
        Some("UnityEngine"@)
    } else if spec_eq_ignore_ascii_case(canonical, "SceneManager"@) {
        Some("UnityEngine.SceneManagement"@)
    } else if spec_eq_ignore_ascii_case(canonical, "UnityEvent"@) {
        Some("UnityEngine.Events"@)
    } else if spec_eq_ignore_ascii_case(canonical, "Button"@) {
        Some("UnityEngine.UI"@)
    } else if spec_eq_ignore_ascii_case(canonical, "Slider"@) {
        Some("UnityEngine.UI"@)
    } else if spec_eq_ignore_ascii_case(canonical, "Int"@) {
        Some("prsm"@)
    } else if spec_eq_ignore_ascii_case(canonical, "Float"@) {
        Some("prsm"@)
    } else if spec_eq_ignore_ascii_case(canonical, "Double"@) {
        Some("prsm"@)
    } else if spec_eq_ignore_ascii_case(canonical, "Bool"@) {
        Some("prsm"@)
    } else if spec_eq_ignore_ascii_case(canonical, "String"@) {
        Some("prsm"@)
    } else if spec_eq_ignore_ascii_case(canonical, "Long"@) {
        Some("prsm"@)
    } else if spec_eq_ignore_ascii_case(canonical, "Byte"@) {
        Some("prsm"@)
    } else {
        None
    }
}

fn core_namespace_of(canonical: &str) -> (r: Option<&'static str>)
    ensures
        match r {
            Some(t) => spec_core_namespace_of(canonical@) == Some(t@),
            None => spec_core_namespace_of(canonical@) is None,
        },
{
    if eq_ignore_ascii_case(canonical, "MonoBehaviour") {
        Some("UnityEngine")
    } else if eq_ignore_ascii_case(canonical, "GameObject") {
        Some("UnityEngine")
    } else if eq_ignore_ascii_case(canonical, "Transform") {
        Some("UnityEngine")
    } else if eq_ignore_ascii_case(canonical, "Rigidbody") {
        Some("UnityEngine")
    } else if eq_ignore_ascii_case(canonical, "Animator") {
        Some("UnityEngine")
    } else if eq_ignore_ascii_case(canonical, "Collider") {
        Some("UnityEngine")
    } else if eq_ignore_ascii_case(canonical, "Collision") {
        Some("UnityEngine")
    } else if eq_ignore_ascii_case(canonical, "Camera") {
        Some("UnityEngine")
    } else if eq_ignore_ascii_case(canonical, "AudioSource") {
        Some("UnityEngine")
    } else if eq_ignore_ascii_case(canonical, "SpriteRenderer") {
        Some("UnityEngine")
    } else if eq_ignore_ascii_case(canonical, "Input") {
        Some("UnityEngine")
    } else if eq_ignore_ascii_case(canonical, "Time") {
        Some("UnityEngine")
    } else if eq_ignore_ascii_case(canonical, "Debug") {
        Some("UnityEngine")
    } else if eq_ignore_ascii_case(canonical, "Physics") {
        Some("UnityEngine")
    } else if eq_ignore_ascii_case(canonical, "Screen") {
        Some("UnityEngine")
    } else if eq_ignore_ascii_case(canonical, "Cursor") {
        Some("UnityEngine")
    } else if eq_ignore_ascii_case(canonical, "Resources") {
        Some("UnityEngine")
    } else if eq_ignore_ascii_case(canonical, "PlayerPrefs") {
        Some("UnityEngine")
    } else if eq_ignore_ascii_case(canonical, "Mathf") {
        Some("UnityEngine")
    } else if eq_ignore_ascii_case(canonical, "Vector3") {
        Some("UnityEngine")
    } else if eq_ignore_ascii_case(canonical, "Vector2") {
        Some("UnityEngine")
    } else if eq_ignore_ascii_case(canonical, "Color") {
        Some("UnityEngine")
    } else if eq_ignore_ascii_case(canonical, "Quaternion") {
        Some("UnityEngine")
    } else if eq_ignore_ascii_case(canonical, "Application") {
        Some("UnityEngine")
    } else if eq_ignore_ascii_case(canonical, "SceneManager") {
        Some("UnityEngine.SceneManagement")
    } else if eq_ignore_ascii_case(canonical, "UnityEvent") {
        Some("UnityEngine.Events")
    } else if eq_ignore_ascii_case(canonical, "Button") {
        Some("UnityEngine.UI")
    } else if eq_ignore_ascii_case(canonical, "Slider") {
        Some("UnityEngine.UI")
    } else if eq_ignore_ascii_case(canonical, "Int") {
        Some("prsm")
    } else if eq_ignore_ascii_case(canonical, "Float") {
        Some("prsm")
    } else if eq_ignore_ascii_case(canonical, "Double") {
        Some("prsm")
    } else if eq_ignore_ascii_case(canonical, "Bool") {
        Some("prsm")
    } else if eq_ignore_ascii_case(canonical, "String") {
        Some("prsm")
    } else if eq_ignore_ascii_case(canonical, "Long") {
        Some("prsm")
    } else if eq_ignore_ascii_case(canonical, "Byte") {
        Some("prsm")
    } else {
        None
    }
}

/// The spelling of a core type in the table, looked up without regard to ASCII case.
pub open spec fn spec_core_type_name_of(canonical: Seq<char>) -> Option<Seq<char>> {
    if spec_eq_ignore_ascii_case(canonical, "MonoBehaviour"@) {
        Some("MonoBehaviour"@)
    } else if spec_eq_ignore_ascii_case(canonical, "GameObject"@) {
        Some("GameObject"@)
    } else if spec_eq_ignore_ascii_case(canonical, "Transform"@) {
        Some("Transform"@)
    } else if spec_eq_ignore_ascii_case(canonical, "Rigidbody"@) {
        Some("Rigidbody"@)
    } else if spec_eq_ignore_ascii_case(canonical, "Animator"@) {
        Some("Animator"@)
    } else if spec_eq_ignore_ascii_case(canonical, "Collider"@) {
        Some("Collider"@)
    } else if spec_eq_ignore_ascii_case(canonical, "Collision"@) {
        Some("Collision"@)
    } else if spec_eq_ignore_ascii_case(canonical, "Camera"@) {
        Some("Camera"@)
    } else if spec_eq_ignore_ascii_case(canonical, "AudioSource"@) {
        Some("AudioSource"@)
    } else if spec_eq_ignore_ascii_case(canonical, "SpriteRenderer"@) {
        Some("SpriteRenderer"@)
    } else if spec_eq_ignore_ascii_case(canonical, "Input"@) {
        Some("Input"@)
    } else if spec_eq_ignore_ascii_case(canonical, "Time"@) {
        Some("Time"@)
    } else if spec_eq_ignore_ascii_case(canonical, "Debug"@) {
        Some("Debug"@)
    } else if spec_eq_ignore_ascii_case(canonical, "Physics"@) {
        Some("Physics"@)
    } else if spec_eq_ignore_ascii_case(canonical, "Screen"@) {
        Some("Screen"@)
    } else if spec_eq_ignore_ascii_case(canonical, "Cursor"@) {
        Some("Cursor"@)
    } else if spec_eq_ignore_ascii_case(canonical, "Resources"@) {
        Some("Resources"@)
    } else if spec_eq_ignore_ascii_case(canonical, "PlayerPrefs"@) {
        Some("PlayerPrefs"@)
    } else if spec_eq_ignore_ascii_case(canonical, "Mathf"@) {
        Some("Mathf"@)
    } else if spec_eq_ignore_ascii_case(canonical, "Vector3"@) {
        Some("Vector3"@)
    } else if spec_eq_ignore_ascii_case(canonical, "Vector2"@) {
        Some("Vector2"@)
    } else if spec_eq_ignore_ascii_case(canonical, "Color"@) {
        Some("Color"@)
    } else if spec_eq_ignore_ascii_case(canonical, "Quaternion"@) {
        Some("Quaternion"@)
    } else if spec_eq_ignore_ascii_case(canonical, "Application"@) {
        Some("Application"@)
    } else if spec_eq_ignore_ascii_case(canonical, "SceneManager"@) {
        Some("SceneManager"@)
    } else if spec_eq_ignore_ascii_case(canonical, "UnityEvent"@) {
        Some("UnityEvent"@)
    } else if spec_eq_ignore_ascii_case(canonical, "Button"@) {
        Some("Button"@)
    } else if spec_eq_ignore_ascii_case(canonical, "Slider"@) {
        Some("Slider"@)
    } else if spec_eq_ignore_ascii_case(canonical, "Int"@) {
        Some("Int"@)
    } else if spec_eq_ignore_ascii_case(canonical, "Float"@) {
        Some("Float"@)
    } else if spec_eq_ignore_ascii_case(canonical, "Double"@) {
        Some("Double"@)
    } else if spec_eq_ignore_ascii_case(canonical, "Bool"@) {
        Some("Bool"@)
    } else if spec_eq_ignore_ascii_case(canonical, "String"@) {
        Some("String"@)
    } else if spec_eq_ignore_ascii_case(canonical, "Long"@) {
        Some("Long"@)
    } else if spec_eq_ignore_ascii_case(canonical, "Byte"@) {
        Some("Byte"@)
    } else {
        None
    }
}

/// The table spelling of the core type named `canonical` (any ASCII case).
pub fn core_type_name_of(canonical: &str) -> (r: Option<&'static str>)
    ensures
        match r {
            Some(t) => spec_core_type_name_of(canonical@) == Some(t@),
            None => spec_core_type_name_of(canonical@) is None,
        },
{
    if eq_ignore_ascii_case(canonical, "MonoBehaviour") {
        Some("MonoBehaviour")
    } else if eq_ignore_ascii_case(canonical, "GameObject") {
        Some("GameObject")
    } else if eq_ignore_ascii_case(canonical, "Transform") {
        Some("Transform")
    } else if eq_ignore_ascii_case(canonical, "Rigidbody") {
        Some("Rigidbody")
    } else if eq_ignore_ascii_case(canonical, "Animator") {
        Some("Animator")
    } else if eq_ignore_ascii_case(canonical, "Collider") {
        Some("Collider")
    } else if eq_ignore_ascii_case(canonical, "Collision") {
        Some("Collision")
    } else if eq_ignore_ascii_case(canonical, "Camera") {
        Some("Camera")
    } else if eq_ignore_ascii_case(canonical, "AudioSource") {
        Some("AudioSource")
    } else if eq_ignore_ascii_case(canonical, "SpriteRenderer") {
        Some("SpriteRenderer")
    } else if eq_ignore_ascii_case(canonical, "Input") {
        Some("Input")
    } else if eq_ignore_ascii_case(canonical, "Time") {
        Some("Time")
    } else if eq_ignore_ascii_case(canonical, "Debug") {
        Some("Debug")
    } else if eq_ignore_ascii_case(canonical, "Physics") {
        Some("Physics")
    } else if eq_ignore_ascii_case(canonical, "Screen") {
        Some("Screen")
    } else if eq_ignore_ascii_case(canonical, "Cursor") {
        Some("Cursor")
    } else if eq_ignore_ascii_case(canonical, "Resources") {
        Some("Resources")
    } else if eq_ignore_ascii_case(canonical, "PlayerPrefs") {
        Some("PlayerPrefs")
    } else if eq_ignore_ascii_case(canonical, "Mathf") {
        Some("Mathf")
    } else if eq_ignore_ascii_case(canonical, "Vector3") {
        Some("Vector3")
    } else if eq_ignore_ascii_case(canonical, "Vector2") {
        Some("Vector2")
    } else if eq_ignore_ascii_case(canonical, "Color") {
        Some("Color")
    } else if eq_ignore_ascii_case(canonical, "Quaternion") {
        Some("Quaternion")
    } else if eq_ignore_ascii_case(canonical, "Application") {
        Some("Application")
    } else if eq_ignore_ascii_case(canonical, "SceneManager") {
        Some("SceneManager")
    } else if eq_ignore_ascii_case(canonical, "UnityEvent") {
        Some("UnityEvent")
    } else if eq_ignore_ascii_case(canonical, "Button") {
        Some("Button")
    } else if eq_ignore_ascii_case(canonical, "Slider") {
        Some("Slider")
    } else if eq_ignore_ascii_case(canonical, "Int") {
        Some("Int")
    } else if eq_ignore_ascii_case(canonical, "Float") {
        Some("Float")
    } else if eq_ignore_ascii_case(canonical, "Double") {
        Some("Double")
    } else if eq_ignore_ascii_case(canonical, "Bool") {
        Some("Bool")
    } else if eq_ignore_ascii_case(canonical, "String") {
        Some("String")
    } else if eq_ignore_ascii_case(canonical, "Long") {
        Some("Long")
    } else if eq_ignore_ascii_case(canonical, "Byte") {
        Some("Byte")
    } else {
        None
    }
}

/// The namespace of a core Unity or PrSM type, looked up by its bare name without regard to
/// ASCII case.
pub open spec fn spec_core_namespace_for_type(ty_name: Seq<char>) -> Option<Seq<char>> {
    spec_core_namespace_of(spec_canonical_type_ident(ty_name))
}

/// The namespace of a core Unity or PrSM type, if `ty_name` names one.
pub fn core_namespace_for_type(ty_name: &str) -> (r: Option<&'static str>)
    ensures
        match r {
            Some(t) => spec_core_namespace_for_type(ty_name@) == Some(t@),
            None => spec_core_namespace_for_type(ty_name@) is None,
        },
{
    let canonical = canonical_type_ident(ty_name);
    core_namespace_of(canonical.as_str())
}

// ── Namespace sets ───────────────────────────────────────────────

/// Adds `ns` to the namespace set unless it is there already.
fn insert_namespace(used: &mut Vec<String>, ns: &str)
    ensures
        forall|x: Seq<char>| #[trigger] spec_holds_text(final(used)@, x) == (spec_holds_text(old(used)@, x) || x == ns@),
{
    let mut i: usize = 0;
    while i < used.len()
        invariant
            i <= used@.len(),
            forall|k: int| 0 <= k < i ==> used@[k]@ != ns@,
        decreases used@.len() - i,
    {
        if str_eq(used[i].as_str(), ns) {
            proof {
                assert(spec_holds_text(used@, ns@)) by {
                    assert(used@[i as int]@ == ns@);
                }
            }
            return;
        }
        i = i + 1;
    }
    let ghost before = used@;
    used.push(owned(ns));
    proof {
        assert(used@[before.len() as int]@ == ns@);
        assert forall|x: Seq<char>| #[trigger] spec_holds_text(used@, x) == (spec_holds_text(before, x) || x == ns@) by {
            if spec_holds_text(before, x) {
                let k = choose|k: int| 0 <= k < before.len() && #[trigger] before[k]@ == x;
                assert(used@[k] == before[k]);
            }
            if spec_holds_text(used@, x) {
                let k = choose|k: int| 0 <= k < used@.len() && #[trigger] used@[k]@ == x;
                if k < before.len() {
                    assert(before[k] == used@[k]);
                }
            }
        }
    }
}

/// Records the namespace that naming `ty_name` brings in (see `spec_marked_namespace`).
pub fn mark_namespace_for_known_type(ty_name: &str, used: &mut Vec<String>)
    ensures
        forall|ns: Seq<char>| #[trigger] spec_holds_text(final(used)@, ns)
            == (spec_holds_text(old(used)@, ns) || name_marks(ty_name@, ns)),
{
    let trimmed = trim_end_char(trim_text(&owned(ty_name)).as_str(), '?');
    if trimmed.as_str().is_empty() || contains_char(trimmed.as_str(), '.') || contains_char(trimmed.as_str(), '<') {
        return;
    }
    let display_name = canonical_type_ident(trimmed.as_str());
    match core_namespace_for_type(display_name.as_str()) {
        Some(ns) => insert_namespace(used, ns),
        None => {},
    }
}

// ── Namespaces a file uses ───────────────────────────────────────

/// The namespaces that the file's declaration uses (see `decl_uses`), each once.
pub fn used_namespaces_for_file(file: &File) -> (r: Vec<String>)
    ensures
        forall|ns: Seq<char>| #[trigger] spec_holds_text(r@, ns) == decl_uses(file.decl, ns),
{
    let mut used: Vec<String> = Vec::new();
    collect_used_namespaces_for_decl(&file.decl, &mut used);
    used
}

/// Adds the namespaces a declaration uses (see `decl_uses`).
pub fn collect_used_namespaces_for_decl(decl: &Decl, used: &mut Vec<String>)
    ensures
        forall|ns: Seq<char>| #[trigger] spec_holds_text(final(used)@, ns)
            == (spec_holds_text(old(used)@, ns) || decl_uses(*decl, ns)),
    decreases decl,
{
    match decl {
        Decl::Component { base_class, interfaces, members, .. } => {
            mark_namespace_for_known_type(base_class.as_str(), used);
            mark_namespaces_for_names(interfaces, used);
            collect_used_namespaces_for_members(members, used);
        },
        Decl::Asset { base_class, members, .. } => {
            mark_namespace_for_known_type(base_class.as_str(), used);
            collect_used_namespaces_for_members(members, used);
        },
        Decl::Class { super_class, interfaces, members, .. } => {
            match super_class {
                Some(sc) => mark_namespace_for_known_type(sc.as_str(), used),
                None => {},
            }
            mark_namespaces_for_names(interfaces, used);
            collect_used_namespaces_for_members(members, used);
        },
        Decl::DataClass { fields, .. } => collect_used_namespaces_for_params(fields, used),
        Decl::Attribute { fields, .. } => collect_used_namespaces_for_params(fields, used),
        Decl::Struct { fields, members, .. } => {
            collect_used_namespaces_for_params(fields, used);
            collect_used_namespaces_for_members(members, used);
        },
        Decl::Extension { members, .. } => collect_used_namespaces_for_members(members, used),
        Decl::Interface { .. } => {},
        Decl::TypeAlias { target, .. } => collect_used_namespaces_for_type_ref(target, used),
        Decl::Enum { params, entries, .. } => {
            collect_used_namespaces_for_enum_params(params, used);
            collect_used_namespaces_for_enum_entries(entries, used);
        },
    }
}

/// Adds the namespaces of a list of type names.
#[verifier::spinoff_prover]
fn mark_namespaces_for_names(v: &Vec<String>, used: &mut Vec<String>)
    ensures
        forall|ns: Seq<char>| #[trigger] spec_holds_text(final(used)@, ns)
            == (spec_holds_text(old(used)@, ns) || names_mark(v@, ns)),
    decreases v,
{
    let ghost entry = used@;
    let mut i: usize = 0;
    proof {
        assert(v@.subrange(0, v@.len() as int) =~= v@);
    }
    while i < v.len()
        invariant
            i <= v@.len(),
            forall|ns: Seq<char>| (#[trigger] spec_holds_text(used@, ns)
                || names_mark(v@.subrange(i as int, v@.len() as int), ns))
                == (spec_holds_text(entry, ns) || names_mark(v@, ns)),
        decreases v@.len() - i,
    {
        proof {
            assert(v@.subrange(i as int, v@.len() as int).subrange(1, v@.len() - i) =~= v@.subrange(i + 1, v@.len() as int));
            assert(v@.subrange(i as int, v@.len() as int)[0] == v@[i as int]);
        }
        let ghost prev = used@;
        mark_namespace_for_known_type(v[i].as_str(), used);
        proof {
            assert forall|ns: Seq<char>| (spec_holds_text(used@, ns) || names_mark(v@.subrange(i + 1, v@.len() as int), ns))
                == (spec_holds_text(entry, ns) || names_mark(v@, ns)) by {
                assert(spec_holds_text(used@, ns) == (spec_holds_text(prev, ns) || name_marks(v@[i as int]@, ns)));
                assert((spec_holds_text(prev, ns) || names_mark(v@.subrange(i as int, v@.len() as int), ns))
                    == (spec_holds_text(entry, ns) || names_mark(v@, ns)));
                assert(names_mark(v@.subrange(i as int, v@.len() as int), ns)
                    == (name_marks(v@[i as int]@, ns) || names_mark(v@.subrange(i + 1, v@.len() as int), ns)));
            }
        }
        i = i + 1;
    }
}
/// Adds the namespaces of the parameter types of an enum.
#[verifier::spinoff_prover]
fn collect_used_namespaces_for_enum_params(v: &Vec<EnumParam>, used: &mut Vec<String>)
    ensures
        forall|ns: Seq<char>| #[trigger] spec_holds_text(final(used)@, ns)
            == (spec_holds_text(old(used)@, ns) || enum_params_use(v@, ns)),
    decreases v,
{
    let ghost entry = used@;
    let mut i: usize = 0;
    proof {
        assert(v@.subrange(0, v@.len() as int) =~= v@);
    }
    while i < v.len()
        invariant
            i <= v@.len(),
            forall|ns: Seq<char>| (#[trigger] spec_holds_text(used@, ns)
                || enum_params_use(v@.subrange(i as int, v@.len() as int), ns))
                == (spec_holds_text(entry, ns) || enum_params_use(v@, ns)),
        decreases v@.len() - i,
    {
        proof {
            assert(v@.subrange(i as int, v@.len() as int).subrange(1, v@.len() - i) =~= v@.subrange(i + 1, v@.len() as int));
            assert(v@.subrange(i as int, v@.len() as int)[0] == v@[i as int]);
        }
        let ghost prev = used@;
        collect_used_namespaces_for_type_ref(&v[i].ty, used);
        proof {
            assert forall|ns: Seq<char>| (spec_holds_text(used@, ns) || enum_params_use(v@.subrange(i + 1, v@.len() as int), ns))
                == (spec_holds_text(entry, ns) || enum_params_use(v@, ns)) by {
                assert(spec_holds_text(used@, ns) == (spec_holds_text(prev, ns) || enum_param_uses(v@[i as int], ns)));
                assert((spec_holds_text(prev, ns) || enum_params_use(v@.subrange(i as int, v@.len() as int), ns))
                    == (spec_holds_text(entry, ns) || enum_params_use(v@, ns)));
                assert(enum_params_use(v@.subrange(i as int, v@.len() as int), ns)
                    == (enum_param_uses(v@[i as int], ns) || enum_params_use(v@.subrange(i + 1, v@.len() as int), ns)));
            }
        }
        i = i + 1;
    }
}
/// Adds the namespaces the arguments of enum entries use.
#[verifier::spinoff_prover]
fn collect_used_namespaces_for_enum_entries(v: &Vec<EnumEntry>, used: &mut Vec<String>)
    ensures
        forall|ns: Seq<char>| #[trigger] spec_holds_text(final(used)@, ns)
            == (spec_holds_text(old(used)@, ns) || entries_use(v@, ns)),
    decreases v,
{
    let ghost entry = used@;
    let mut i: usize = 0;
    proof {
        assert(v@.subrange(0, v@.len() as int) =~= v@);
    }
    while i < v.len()
        invariant
            i <= v@.len(),
            forall|ns: Seq<char>| (#[trigger] spec_holds_text(used@, ns)
                || entries_use(v@.subrange(i as int, v@.len() as int), ns))
                == (spec_holds_text(entry, ns) || entries_use(v@, ns)),
        decreases v@.len() - i,
    {
        proof {
            assert(v@.subrange(i as int, v@.len() as int).subrange(1, v@.len() - i) =~= v@.subrange(i + 1, v@.len() as int));
            assert(v@.subrange(i as int, v@.len() as int)[0] == v@[i as int]);
        }
        let ghost prev = used@;
        collect_used_namespaces_for_exprs(&v[i].args, used);
        proof {
            assert forall|ns: Seq<char>| (spec_holds_text(used@, ns) || entries_use(v@.subrange(i + 1, v@.len() as int), ns))
                == (spec_holds_text(entry, ns) || entries_use(v@, ns)) by {
                assert(spec_holds_text(used@, ns) == (spec_holds_text(prev, ns) || entry_uses(v@[i as int], ns)));
                assert((spec_holds_text(prev, ns) || entries_use(v@.subrange(i as int, v@.len() as int), ns))
                    == (spec_holds_text(entry, ns) || entries_use(v@, ns)));
                assert(entries_use(v@.subrange(i as int, v@.len() as int), ns)
                    == (entry_uses(v@[i as int], ns) || entries_use(v@.subrange(i + 1, v@.len() as int), ns)));
            }
        }
        i = i + 1;
    }
}
/// Adds the namespaces every member of a list uses.
#[verifier::spinoff_prover]
fn collect_used_namespaces_for_members(v: &Vec<Member>, used: &mut Vec<String>)
    ensures
        forall|ns: Seq<char>| #[trigger] spec_holds_text(final(used)@, ns)
            == (spec_holds_text(old(used)@, ns) || members_use(v@, ns)),
    decreases v,
{
    let ghost entry = used@;
    let mut i: usize = 0;
    proof {
        assert(v@.subrange(0, v@.len() as int) =~= v@);
    }
    while i < v.len()
        invariant
            i <= v@.len(),
            forall|ns: Seq<char>| (#[trigger] spec_holds_text(used@, ns)
                || members_use(v@.subrange(i as int, v@.len() as int), ns))
                == (spec_holds_text(entry, ns) || members_use(v@, ns)),
        decreases v@.len() - i,
    {
        proof {
            assert(v@.subrange(i as int, v@.len() as int).subrange(1, v@.len() - i) =~= v@.subrange(i + 1, v@.len() as int));
            assert(v@.subrange(i as int, v@.len() as int)[0] == v@[i as int]);
        }
        let ghost prev = used@;
        collect_used_namespaces_for_member(&v[i], used);
        proof {
            assert forall|ns: Seq<char>| (spec_holds_text(used@, ns) || members_use(v@.subrange(i + 1, v@.len() as int), ns))
                == (spec_holds_text(entry, ns) || members_use(v@, ns)) by {
                assert(spec_holds_text(used@, ns) == (spec_holds_text(prev, ns) || member_uses(v@[i as int], ns)));
                assert((spec_holds_text(prev, ns) || members_use(v@.subrange(i as int, v@.len() as int), ns))
                    == (spec_holds_text(entry, ns) || members_use(v@, ns)));
                assert(members_use(v@.subrange(i as int, v@.len() as int), ns)
                    == (member_uses(v@[i as int], ns) || members_use(v@.subrange(i + 1, v@.len() as int), ns)));
            }
        }
        i = i + 1;
    }
}
/// Adds the namespaces a function body uses.
fn collect_used_namespaces_for_func_body(body: &FuncBody, used: &mut Vec<String>)
    ensures
        forall|ns: Seq<char>| #[trigger] spec_holds_text(final(used)@, ns)
            == (spec_holds_text(old(used)@, ns) || func_body_uses(*body, ns)),
    decreases body,
{
    match body {
        FuncBody::Block(block) => collect_used_namespaces_for_block(block, used),
        FuncBody::ExprBody(expr) => collect_used_namespaces_for_expr(expr, used),
    }
}

fn collect_used_namespaces_for_opt_type_ref(ty: &Option<TypeRef>, used: &mut Vec<String>)
    ensures
        forall|ns: Seq<char>| #[trigger] spec_holds_text(final(used)@, ns)
            == (spec_holds_text(old(used)@, ns) || opt_type_ref_uses(*ty, ns)),
    decreases ty,
{
    match ty {
        Some(t) => collect_used_namespaces_for_type_ref(t, used),
        None => {},
    }
}

fn collect_used_namespaces_for_opt_expr(e: &Option<Expr>, used: &mut Vec<String>)
    ensures
        forall|ns: Seq<char>| #[trigger] spec_holds_text(final(used)@, ns)
            == (spec_holds_text(old(used)@, ns) || opt_expr_uses(*e, ns)),
    decreases e,
{
    match e {
        Some(x) => collect_used_namespaces_for_expr(x, used),
        None => {},
    }
}

fn collect_used_namespaces_for_opt_boxed_expr(e: &Option<Box<Expr>>, used: &mut Vec<String>)
    ensures
        forall|ns: Seq<char>| #[trigger] spec_holds_text(final(used)@, ns)
            == (spec_holds_text(old(used)@, ns) || opt_boxed_expr_uses(*e, ns)),
    decreases e,
{
    match e {
        Some(x) => collect_used_namespaces_for_expr(x, used),
        None => {},
    }
}

fn collect_used_namespaces_for_opt_block(b: &Option<Block>, used: &mut Vec<String>)
    ensures
        forall|ns: Seq<char>| #[trigger] spec_holds_text(final(used)@, ns)
            == (spec_holds_text(old(used)@, ns) || opt_block_uses(*b, ns)),
    decreases b,
{
    match b {
        Some(x) => collect_used_namespaces_for_block(x, used),
        None => {},
    }
}

/// Adds the namespaces a member uses (see `member_uses`).
pub fn collect_used_namespaces_for_member(member: &Member, used: &mut Vec<String>)
    ensures
        forall|ns: Seq<char>| #[trigger] spec_holds_text(final(used)@, ns)
            == (spec_holds_text(old(used)@, ns) || member_uses(*member, ns)),
    decreases member,
{
    match member {
        Member::SerializeField { annotations, ty, init, .. } => {
            collect_used_namespaces_for_annotations(annotations, used);
            collect_used_namespaces_for_type_ref(ty, used);
            collect_used_namespaces_for_opt_expr(init, used);
        },
        Member::Field { ty, init, .. } => {
            collect_used_namespaces_for_opt_type_ref(ty, used);
            collect_used_namespaces_for_opt_expr(init, used);
        },
        Member::Require { ty, .. } => collect_used_namespaces_for_type_ref(ty, used),
        Member::Optional { ty, .. } => collect_used_namespaces_for_type_ref(ty, used),
        Member::Child { ty, .. } => collect_used_namespaces_for_type_ref(ty, used),
        Member::Parent { ty, .. } => collect_used_namespaces_for_type_ref(ty, used),
        Member::Func { params, return_ty, body, .. } => {
            collect_used_namespaces_for_params(params, used);
            collect_used_namespaces_for_opt_type_ref(return_ty, used);
            collect_used_namespaces_for_func_body(body, used);
        },
        Member::Coroutine { params, body, .. } => {
            collect_used_namespaces_for_params(params, used);
            collect_used_namespaces_for_block(body, used);
        },
        Member::Lifecycle { params, body, .. } => {
            collect_used_namespaces_for_params(params, used);
            collect_used_namespaces_for_block(body, used);
        },
        Member::IntrinsicFunc { params, return_ty, .. } => {
            collect_used_namespaces_for_params(params, used);
            collect_used_namespaces_for_opt_type_ref(return_ty, used);
        },
        Member::IntrinsicCoroutine { params, .. } => collect_used_namespaces_for_params(params, used),
        Member::Pool { item_type, .. } => collect_used_namespaces_for_type_ref(item_type, used),
        Member::Property { ty, getter, setter, .. } => {
            collect_used_namespaces_for_type_ref(ty, used);
            match getter {
                Some(body) => collect_used_namespaces_for_func_body(body, used),
                None => {},
            }
            match setter {
                Some(s) => collect_used_namespaces_for_block(&s.body, used),
                None => {},
            }
        },
        Member::Event { ty, .. } => collect_used_namespaces_for_type_ref(ty, used),
        Member::StateMachine { states, .. } => collect_used_namespaces_for_states(states, used),
        Member::Command { params, execute, undo, can_execute, .. } => {
            collect_used_namespaces_for_params(params, used);
            collect_used_namespaces_for_block(execute, used);
            collect_used_namespaces_for_opt_block(undo, used);
            collect_used_namespaces_for_opt_expr(can_execute, used);
        },
        Member::BindProperty { ty, init, .. } => {
            collect_used_namespaces_for_type_ref(ty, used);
            collect_used_namespaces_for_opt_expr(init, used);
        },
        Member::ListenDecl { event, body, .. } => {
            collect_used_namespaces_for_expr(event, used);
            collect_used_namespaces_for_block(body, used);
        },
        Member::NestedDecl { decl, .. } => collect_used_namespaces_for_decl(decl, used),
    }
}

/// Adds the namespaces the enter and exit blocks of states use.
#[verifier::spinoff_prover]
fn collect_used_namespaces_for_states(v: &Vec<StateDecl>, used: &mut Vec<String>)
    ensures
        forall|ns: Seq<char>| #[trigger] spec_holds_text(final(used)@, ns)
            == (spec_holds_text(old(used)@, ns) || states_use(v@, ns)),
    decreases v,
{
    let ghost entry = used@;
    let mut i: usize = 0;
    proof {
        assert(v@.subrange(0, v@.len() as int) =~= v@);
    }
    while i < v.len()
        invariant
            i <= v@.len(),
            forall|ns: Seq<char>| (#[trigger] spec_holds_text(used@, ns)
                || states_use(v@.subrange(i as int, v@.len() as int), ns))
                == (spec_holds_text(entry, ns) || states_use(v@, ns)),
        decreases v@.len() - i,
    {
        proof {
            assert(v@.subrange(i as int, v@.len() as int).subrange(1, v@.len() - i) =~= v@.subrange(i + 1, v@.len() as int));
            assert(v@.subrange(i as int, v@.len() as int)[0] == v@[i as int]);
        }
        let ghost prev = used@;
        collect_used_namespaces_for_opt_block(&v[i].enter, used);
        collect_used_namespaces_for_opt_block(&v[i].exit, used);
        proof {
            assert forall|ns: Seq<char>| (spec_holds_text(used@, ns) || states_use(v@.subrange(i + 1, v@.len() as int), ns))
                == (spec_holds_text(entry, ns) || states_use(v@, ns)) by {
                assert(spec_holds_text(used@, ns) == (spec_holds_text(prev, ns) || state_uses(v@[i as int], ns)));
                assert((spec_holds_text(prev, ns) || states_use(v@.subrange(i as int, v@.len() as int), ns))
                    == (spec_holds_text(entry, ns) || states_use(v@, ns)));
                assert(states_use(v@.subrange(i as int, v@.len() as int), ns)
                    == (state_uses(v@[i as int], ns) || states_use(v@.subrange(i + 1, v@.len() as int), ns)));
            }
        }
        i = i + 1;
    }
}
/// Adds the namespaces annotations use: their names and arguments.
#[verifier::spinoff_prover]
fn collect_used_namespaces_for_annotations(v: &Vec<Annotation>, used: &mut Vec<String>)
    ensures
        forall|ns: Seq<char>| #[trigger] spec_holds_text(final(used)@, ns)
            == (spec_holds_text(old(used)@, ns) || annotations_use(v@, ns)),
    decreases v,
{
    let ghost entry = used@;
    let mut i: usize = 0;
    proof {
        assert(v@.subrange(0, v@.len() as int) =~= v@);
    }
    while i < v.len()
        invariant
            i <= v@.len(),
            forall|ns: Seq<char>| (#[trigger] spec_holds_text(used@, ns)
                || annotations_use(v@.subrange(i as int, v@.len() as int), ns))
                == (spec_holds_text(entry, ns) || annotations_use(v@, ns)),
        decreases v@.len() - i,
    {
        proof {
            assert(v@.subrange(i as int, v@.len() as int).subrange(1, v@.len() - i) =~= v@.subrange(i + 1, v@.len() as int));
            assert(v@.subrange(i as int, v@.len() as int)[0] == v@[i as int]);
        }
        let ghost prev = used@;
        mark_namespace_for_known_type(v[i].name.as_str(), used);
        collect_used_namespaces_for_exprs(&v[i].args, used);
        proof {
            assert forall|ns: Seq<char>| (spec_holds_text(used@, ns) || annotations_use(v@.subrange(i + 1, v@.len() as int), ns))
                == (spec_holds_text(entry, ns) || annotations_use(v@, ns)) by {
                assert(spec_holds_text(used@, ns) == (spec_holds_text(prev, ns) || annotation_uses(v@[i as int], ns)));
                assert((spec_holds_text(prev, ns) || annotations_use(v@.subrange(i as int, v@.len() as int), ns))
                    == (spec_holds_text(entry, ns) || annotations_use(v@, ns)));
                assert(annotations_use(v@.subrange(i as int, v@.len() as int), ns)
                    == (annotation_uses(v@[i as int], ns) || annotations_use(v@.subrange(i + 1, v@.len() as int), ns)));
            }
        }
        i = i + 1;
    }
}
/// Adds the namespaces parameters use: their types and defaults.
#[verifier::spinoff_prover]
fn collect_used_namespaces_for_params(v: &Vec<Param>, used: &mut Vec<String>)
    ensures
        forall|ns: Seq<char>| #[trigger] spec_holds_text(final(used)@, ns)
            == (spec_holds_text(old(used)@, ns) || params_use(v@, ns)),
    decreases v,
{
    let ghost entry = used@;
    let mut i: usize = 0;
    proof {
        assert(v@.subrange(0, v@.len() as int) =~= v@);
    }
    while i < v.len()
        invariant
            i <= v@.len(),
            forall|ns: Seq<char>| (#[trigger] spec_holds_text(used@, ns)
                || params_use(v@.subrange(i as int, v@.len() as int), ns))
                == (spec_holds_text(entry, ns) || params_use(v@, ns)),
        decreases v@.len() - i,
    {
        proof {
            assert(v@.subrange(i as int, v@.len() as int).subrange(1, v@.len() - i) =~= v@.subrange(i + 1, v@.len() as int));
            assert(v@.subrange(i as int, v@.len() as int)[0] == v@[i as int]);
        }
        let ghost prev = used@;
        collect_used_namespaces_for_type_ref(&v[i].ty, used);
        collect_used_namespaces_for_opt_expr(&v[i].default, used);
        proof {
            assert forall|ns: Seq<char>| (spec_holds_text(used@, ns) || params_use(v@.subrange(i + 1, v@.len() as int), ns))
                == (spec_holds_text(entry, ns) || params_use(v@, ns)) by {
                assert(spec_holds_text(used@, ns) == (spec_holds_text(prev, ns) || param_uses(v@[i as int], ns)));
                assert((spec_holds_text(prev, ns) || params_use(v@.subrange(i as int, v@.len() as int), ns))
                    == (spec_holds_text(entry, ns) || params_use(v@, ns)));
                assert(params_use(v@.subrange(i as int, v@.len() as int), ns)
                    == (param_uses(v@[i as int], ns) || params_use(v@.subrange(i + 1, v@.len() as int), ns)));
            }
        }
        i = i + 1;
    }
}
/// Adds the namespaces the statements of a block use.
fn collect_used_namespaces_for_block(block: &Block, used: &mut Vec<String>)
    ensures
        forall|ns: Seq<char>| #[trigger] spec_holds_text(final(used)@, ns)
            == (spec_holds_text(old(used)@, ns) || block_uses(*block, ns)),
    decreases block,
{
    collect_used_namespaces_for_stmts(&block.stmts, used);
}

/// Adds the namespaces a list of statements uses.
#[verifier::spinoff_prover]
fn collect_used_namespaces_for_stmts(v: &Vec<Stmt>, used: &mut Vec<String>)
    ensures
        forall|ns: Seq<char>| #[trigger] spec_holds_text(final(used)@, ns)
            == (spec_holds_text(old(used)@, ns) || stmts_use(v@, ns)),
    decreases v,
{
    let ghost entry = used@;
    let mut i: usize = 0;
    proof {
        assert(v@.subrange(0, v@.len() as int) =~= v@);
    }
    while i < v.len()
        invariant
            i <= v@.len(),
            forall|ns: Seq<char>| (#[trigger] spec_holds_text(used@, ns)
                || stmts_use(v@.subrange(i as int, v@.len() as int), ns))
                == (spec_holds_text(entry, ns) || stmts_use(v@, ns)),
        decreases v@.len() - i,
    {
        proof {
            assert(v@.subrange(i as int, v@.len() as int).subrange(1, v@.len() - i) =~= v@.subrange(i + 1, v@.len() as int));
            assert(v@.subrange(i as int, v@.len() as int)[0] == v@[i as int]);
        }
        let ghost prev = used@;
        collect_used_namespaces_for_stmt(&v[i], used);
        proof {
            assert forall|ns: Seq<char>| (spec_holds_text(used@, ns) || stmts_use(v@.subrange(i + 1, v@.len() as int), ns))
                == (spec_holds_text(entry, ns) || stmts_use(v@, ns)) by {
                assert(spec_holds_text(used@, ns) == (spec_holds_text(prev, ns) || stmt_uses(v@[i as int], ns)));
                assert((spec_holds_text(prev, ns) || stmts_use(v@.subrange(i as int, v@.len() as int), ns))
                    == (spec_holds_text(entry, ns) || stmts_use(v@, ns)));
                assert(stmts_use(v@.subrange(i as int, v@.len() as int), ns)
                    == (stmt_uses(v@[i as int], ns) || stmts_use(v@.subrange(i + 1, v@.len() as int), ns)));
            }
        }
        i = i + 1;
    }
}
/// Adds the namespaces a list of expressions uses.
#[verifier::spinoff_prover]
fn collect_used_namespaces_for_exprs(v: &Vec<Expr>, used: &mut Vec<String>)
    ensures
        forall|ns: Seq<char>| #[trigger] spec_holds_text(final(used)@, ns)
            == (spec_holds_text(old(used)@, ns) || exprs_use(v@, ns)),
    decreases v,
{
    let ghost entry = used@;
    let mut i: usize = 0;
    proof {
        assert(v@.subrange(0, v@.len() as int) =~= v@);
    }
    while i < v.len()
        invariant
            i <= v@.len(),
            forall|ns: Seq<char>| (#[trigger] spec_holds_text(used@, ns)
                || exprs_use(v@.subrange(i as int, v@.len() as int), ns))
                == (spec_holds_text(entry, ns) || exprs_use(v@, ns)),
        decreases v@.len() - i,
    {
        proof {
            assert(v@.subrange(i as int, v@.len() as int).subrange(1, v@.len() - i) =~= v@.subrange(i + 1, v@.len() as int));
            assert(v@.subrange(i as int, v@.len() as int)[0] == v@[i as int]);
        }
        let ghost prev = used@;
        collect_used_namespaces_for_expr(&v[i], used);
        proof {
            assert forall|ns: Seq<char>| (spec_holds_text(used@, ns) || exprs_use(v@.subrange(i + 1, v@.len() as int), ns))
                == (spec_holds_text(entry, ns) || exprs_use(v@, ns)) by {
                assert(spec_holds_text(used@, ns) == (spec_holds_text(prev, ns) || expr_uses(v@[i as int], ns)));
                assert((spec_holds_text(prev, ns) || exprs_use(v@.subrange(i as int, v@.len() as int), ns))
                    == (spec_holds_text(entry, ns) || exprs_use(v@, ns)));
                assert(exprs_use(v@.subrange(i as int, v@.len() as int), ns)
                    == (expr_uses(v@[i as int], ns) || exprs_use(v@.subrange(i + 1, v@.len() as int), ns)));
            }
        }
        i = i + 1;
    }
}
/// Adds the namespaces `catch` clauses use: their types and bodies.
#[verifier::spinoff_prover]
fn collect_used_namespaces_for_catches(v: &Vec<CatchClause>, used: &mut Vec<String>)
    ensures
        forall|ns: Seq<char>| #[trigger] spec_holds_text(final(used)@, ns)
            == (spec_holds_text(old(used)@, ns) || catches_use(v@, ns)),
    decreases v,
{
    let ghost entry = used@;
    let mut i: usize = 0;
    proof {
        assert(v@.subrange(0, v@.len() as int) =~= v@);
    }
    while i < v.len()
        invariant
            i <= v@.len(),
            forall|ns: Seq<char>| (#[trigger] spec_holds_text(used@, ns)
                || catches_use(v@.subrange(i as int, v@.len() as int), ns))
                == (spec_holds_text(entry, ns) || catches_use(v@, ns)),
        decreases v@.len() - i,
    {
        proof {
            assert(v@.subrange(i as int, v@.len() as int).subrange(1, v@.len() - i) =~= v@.subrange(i + 1, v@.len() as int));
            assert(v@.subrange(i as int, v@.len() as int)[0] == v@[i as int]);
        }
        let ghost prev = used@;
        collect_used_namespaces_for_type_ref(&v[i].ty, used);
        collect_used_namespaces_for_block(&v[i].body, used);
        proof {
            assert forall|ns: Seq<char>| (spec_holds_text(used@, ns) || catches_use(v@.subrange(i + 1, v@.len() as int), ns))
                == (spec_holds_text(entry, ns) || catches_use(v@, ns)) by {
                assert(spec_holds_text(used@, ns) == (spec_holds_text(prev, ns) || catch_uses(v@[i as int], ns)));
                assert((spec_holds_text(prev, ns) || catches_use(v@.subrange(i as int, v@.len() as int), ns))
                    == (spec_holds_text(entry, ns) || catches_use(v@, ns)));
                assert(catches_use(v@.subrange(i as int, v@.len() as int), ns)
                    == (catch_uses(v@[i as int], ns) || catches_use(v@.subrange(i + 1, v@.len() as int), ns)));
            }
        }
        i = i + 1;
    }
}
/// Adds the namespaces the arms of a preprocessor block use.
#[verifier::spinoff_prover]
fn collect_used_namespaces_for_arms(v: &Vec<PreprocessorArm>, used: &mut Vec<String>)
    ensures
        forall|ns: Seq<char>| #[trigger] spec_holds_text(final(used)@, ns)
            == (spec_holds_text(old(used)@, ns) || arms_use(v@, ns)),
    decreases v,
{
    let ghost entry = used@;
    let mut i: usize = 0;
    proof {
        assert(v@.subrange(0, v@.len() as int) =~= v@);
    }
    while i < v.len()
        invariant
            i <= v@.len(),
            forall|ns: Seq<char>| (#[trigger] spec_holds_text(used@, ns)
                || arms_use(v@.subrange(i as int, v@.len() as int), ns))
                == (spec_holds_text(entry, ns) || arms_use(v@, ns)),
        decreases v@.len() - i,
    {
        proof {
            assert(v@.subrange(i as int, v@.len() as int).subrange(1, v@.len() - i) =~= v@.subrange(i + 1, v@.len() as int));
            assert(v@.subrange(i as int, v@.len() as int)[0] == v@[i as int]);
        }
        let ghost prev = used@;
        collect_used_namespaces_for_stmts(&v[i].body, used);
        proof {
            assert forall|ns: Seq<char>| (spec_holds_text(used@, ns) || arms_use(v@.subrange(i + 1, v@.len() as int), ns))
                == (spec_holds_text(entry, ns) || arms_use(v@, ns)) by {
                assert(spec_holds_text(used@, ns) == (spec_holds_text(prev, ns) || arm_uses(v@[i as int], ns)));
                assert((spec_holds_text(prev, ns) || arms_use(v@.subrange(i as int, v@.len() as int), ns))
                    == (spec_holds_text(entry, ns) || arms_use(v@, ns)));
                assert(arms_use(v@.subrange(i as int, v@.len() as int), ns)
                    == (arm_uses(v@[i as int], ns) || arms_use(v@.subrange(i + 1, v@.len() as int), ns)));
            }
        }
        i = i + 1;
    }
}
/// Adds the namespaces a statement uses (see `stmt_uses`).
pub fn collect_used_namespaces_for_stmt(stmt: &Stmt, used: &mut Vec<String>)
    ensures
        forall|ns: Seq<char>| #[trigger] spec_holds_text(final(used)@, ns)
            == (spec_holds_text(old(used)@, ns) || stmt_uses(*stmt, ns)),
    decreases stmt,
{
    match stmt {
        Stmt::ValDecl { ty, init, .. } => {
            collect_used_namespaces_for_opt_type_ref(ty, used);
            collect_used_namespaces_for_expr(init, used);
        },
        Stmt::VarDecl { ty, init, .. } => {
            collect_used_namespaces_for_opt_type_ref(ty, used);
            collect_used_namespaces_for_opt_expr(init, used);
        },
        Stmt::Assignment { target, value, .. } => {
            collect_used_namespaces_for_expr(target, used);
            collect_used_namespaces_for_expr(value, used);
        },
        Stmt::Expr { expr, .. } => collect_used_namespaces_for_expr(expr, used),
        Stmt::If { cond, then_block, else_branch, .. } => {
            collect_used_namespaces_for_expr(cond, used);
            collect_used_namespaces_for_block(then_block, used);
            match else_branch {
                Some(ElseBranch::ElseBlock(block)) => collect_used_namespaces_for_block(block, used),
                Some(ElseBranch::ElseIf(s)) => collect_used_namespaces_for_stmt(s, used),
                None => {},
            }
        },
        Stmt::When { subject, branches, .. } => {
            collect_used_namespaces_for_opt_expr(subject, used);
            collect_used_namespaces_for_when_branches(branches, used);
        },
        Stmt::For { for_pattern, iterable, body, .. } => {
            match for_pattern {
                Some(p) => mark_namespace_for_known_type(p.type_path.as_str(), used),
                None => {},
            }
            collect_used_namespaces_for_expr(iterable, used);
            collect_used_namespaces_for_block(body, used);
        },
        Stmt::DestructureVal { pattern, init, .. } => {
            mark_namespace_for_known_type(pattern.type_path.as_str(), used);
            collect_used_namespaces_for_expr(init, used);
        },
        Stmt::While { cond, body, .. } => {
            collect_used_namespaces_for_expr(cond, used);
            collect_used_namespaces_for_block(body, used);
        },
        Stmt::Return { value, .. } => collect_used_namespaces_for_opt_expr(value, used),
        Stmt::Wait { form, .. } => {
            match form {
                WaitForm::Duration(e) => collect_used_namespaces_for_expr(e, used),
                WaitForm::Until(e) => collect_used_namespaces_for_expr(e, used),
                WaitForm::While(e) => collect_used_namespaces_for_expr(e, used),
                WaitForm::NextFrame | WaitForm::FixedFrame => {},
            }
        },
        Stmt::Start { call, .. } => collect_used_namespaces_for_expr(call, used),
        Stmt::Stop { target, .. } => collect_used_namespaces_for_expr(target, used),
        Stmt::Listen { event, body, .. } => {
            collect_used_namespaces_for_expr(event, used);
            collect_used_namespaces_for_block(body, used);
        },
        Stmt::StopAll { .. } | Stmt::Unlisten { .. } | Stmt::IntrinsicBlock { .. } | Stmt::Break { .. }
        | Stmt::Continue { .. } | Stmt::YieldBreak { .. } => {},
        Stmt::Try { try_block, catches, finally_block, .. } => {
            collect_used_namespaces_for_block(try_block, used);
            collect_used_namespaces_for_catches(catches, used);
            collect_used_namespaces_for_opt_block(finally_block, used);
        },
        Stmt::Throw { expr, .. } => collect_used_namespaces_for_expr(expr, used),
        Stmt::Use { ty, init, body, .. } => {
            collect_used_namespaces_for_opt_type_ref(ty, used);
            collect_used_namespaces_for_expr(init, used);
            collect_used_namespaces_for_opt_block(body, used);
        },
        Stmt::BindTo { target, .. } => collect_used_namespaces_for_expr(target, used),
        Stmt::Yield { value, .. } => collect_used_namespaces_for_expr(value, used),
        Stmt::Preprocessor { arms, else_arm, .. } => {
            collect_used_namespaces_for_arms(arms, used);
            match else_arm {
                Some(stmts) => collect_used_namespaces_for_stmts(stmts, used),
                None => {},
            }
        },
    }
}

/// Adds the namespaces the branches of a `when` use.
#[verifier::spinoff_prover]
fn collect_used_namespaces_for_when_branches(v: &Vec<WhenBranch>, used: &mut Vec<String>)
    ensures
        forall|ns: Seq<char>| #[trigger] spec_holds_text(final(used)@, ns)
            == (spec_holds_text(old(used)@, ns) || branches_use(v@, ns)),
    decreases v,
{
    let ghost entry = used@;
    let mut i: usize = 0;
    proof {
        assert(v@.subrange(0, v@.len() as int) =~= v@);
    }
    while i < v.len()
        invariant
            i <= v@.len(),
            forall|ns: Seq<char>| (#[trigger] spec_holds_text(used@, ns)
                || branches_use(v@.subrange(i as int, v@.len() as int), ns))
                == (spec_holds_text(entry, ns) || branches_use(v@, ns)),
        decreases v@.len() - i,
    {
        proof {
            assert(v@.subrange(i as int, v@.len() as int).subrange(1, v@.len() - i) =~= v@.subrange(i + 1, v@.len() as int));
            assert(v@.subrange(i as int, v@.len() as int)[0] == v@[i as int]);
        }
        let ghost prev = used@;
        collect_used_namespaces_for_when_branch(&v[i], used);
        proof {
            assert forall|ns: Seq<char>| (spec_holds_text(used@, ns) || branches_use(v@.subrange(i + 1, v@.len() as int), ns))
                == (spec_holds_text(entry, ns) || branches_use(v@, ns)) by {
                assert(spec_holds_text(used@, ns) == (spec_holds_text(prev, ns) || branch_uses(v@[i as int], ns)));
                assert((spec_holds_text(prev, ns) || branches_use(v@.subrange(i as int, v@.len() as int), ns))
                    == (spec_holds_text(entry, ns) || branches_use(v@, ns)));
                assert(branches_use(v@.subrange(i as int, v@.len() as int), ns)
                    == (branch_uses(v@[i as int], ns) || branches_use(v@.subrange(i + 1, v@.len() as int), ns)));
            }
        }
        i = i + 1;
    }
}
/// Adds the namespaces a `when` branch uses: its pattern, guard and body.
pub fn collect_used_namespaces_for_when_branch(branch: &WhenBranch, used: &mut Vec<String>)
    ensures
        forall|ns: Seq<char>| #[trigger] spec_holds_text(final(used)@, ns)
            == (spec_holds_text(old(used)@, ns) || branch_uses(*branch, ns)),
    decreases branch,
{
    collect_used_namespaces_for_pattern(&branch.pattern, used);
    collect_used_namespaces_for_opt_expr(&branch.guard, used);
    match &branch.body {
        WhenBody::Block(block) => collect_used_namespaces_for_block(block, used),
        WhenBody::Expr(e) => collect_used_namespaces_for_expr(e, used),
    }
}

/// Adds the namespaces a pattern uses (see `pattern_uses`).
fn collect_used_namespaces_for_pattern(pattern: &WhenPattern, used: &mut Vec<String>)
    ensures
        forall|ns: Seq<char>| #[trigger] spec_holds_text(final(used)@, ns)
            == (spec_holds_text(old(used)@, ns) || pattern_uses(*pattern, ns)),
    decreases pattern,
{
    match pattern {
        WhenPattern::Expression(e) => collect_used_namespaces_for_expr(e, used),
        WhenPattern::Is(ty) => collect_used_namespaces_for_type_ref(ty, used),
        WhenPattern::Else => {},
        WhenPattern::Binding { path, .. } => {
            if path.len() > 0 {
                mark_namespace_for_known_type(path[0].as_str(), used);
            }
        },
        WhenPattern::Positional { path, .. } => {
            if path.len() > 0 {
                mark_namespace_for_known_type(path[0].as_str(), used);
            }
        },
        WhenPattern::Property { type_path, .. } => {
            if type_path.len() > 0 {
                mark_namespace_for_known_type(type_path[0].as_str(), used);
            }
        },
        WhenPattern::Or { patterns, .. } => collect_used_namespaces_for_alternatives(patterns, used),
        WhenPattern::Range { start, end, .. } => {
            collect_used_namespaces_for_expr(start, used);
            collect_used_namespaces_for_expr(end, used);
        },
        WhenPattern::Relational { value, .. } => collect_used_namespaces_for_expr(value, used),
        WhenPattern::Not { inner, .. } => collect_used_namespaces_for_pattern(inner, used),
        WhenPattern::And { left, right, .. } => {
            collect_used_namespaces_for_pattern(left, used);
            collect_used_namespaces_for_pattern(right, used);
        },
    }
}

/// Adds the namespaces the alternatives of an `or` pattern use, one level deep.
#[verifier::spinoff_prover]
fn collect_used_namespaces_for_alternatives(v: &Vec<WhenPattern>, used: &mut Vec<String>)
    ensures
        forall|ns: Seq<char>| #[trigger] spec_holds_text(final(used)@, ns)
            == (spec_holds_text(old(used)@, ns) || alternatives_use(v@, ns)),
    decreases v,
{
    let ghost entry = used@;
    let mut i: usize = 0;
    proof {
        assert(v@.subrange(0, v@.len() as int) =~= v@);
    }
    while i < v.len()
        invariant
            i <= v@.len(),
            forall|ns: Seq<char>| (#[trigger] spec_holds_text(used@, ns)
                || alternatives_use(v@.subrange(i as int, v@.len() as int), ns))
                == (spec_holds_text(entry, ns) || alternatives_use(v@, ns)),
        decreases v@.len() - i,
    {
        proof {
            assert(v@.subrange(i as int, v@.len() as int).subrange(1, v@.len() - i) =~= v@.subrange(i + 1, v@.len() as int));
            assert(v@.subrange(i as int, v@.len() as int)[0] == v@[i as int]);
        }
        let ghost prev = used@;
        match &v[i] {
            WhenPattern::Expression(e) => collect_used_namespaces_for_expr(e, used),
            WhenPattern::Is(ty) => collect_used_namespaces_for_type_ref(ty, used),
            _ => {},
        }
        proof {
            assert forall|ns: Seq<char>| (spec_holds_text(used@, ns) || alternatives_use(v@.subrange(i + 1, v@.len() as int), ns))
                == (spec_holds_text(entry, ns) || alternatives_use(v@, ns)) by {
                assert(spec_holds_text(used@, ns) == (spec_holds_text(prev, ns) || alternative_uses(v@[i as int], ns)));
                assert((spec_holds_text(prev, ns) || alternatives_use(v@.subrange(i as int, v@.len() as int), ns))
                    == (spec_holds_text(entry, ns) || alternatives_use(v@, ns)));
                assert(alternatives_use(v@.subrange(i as int, v@.len() as int), ns)
                    == (alternative_uses(v@[i as int], ns) || alternatives_use(v@.subrange(i + 1, v@.len() as int), ns)));
            }
        }
        i = i + 1;
    }
}
/// Adds the namespaces call arguments use.
#[verifier::spinoff_prover]
fn collect_used_namespaces_for_args(v: &Vec<Arg>, used: &mut Vec<String>)
    ensures
        forall|ns: Seq<char>| #[trigger] spec_holds_text(final(used)@, ns)
            == (spec_holds_text(old(used)@, ns) || args_use(v@, ns)),
    decreases v,
{
    let ghost entry = used@;
    let mut i: usize = 0;
    proof {
        assert(v@.subrange(0, v@.len() as int) =~= v@);
    }
    while i < v.len()
        invariant
            i <= v@.len(),
            forall|ns: Seq<char>| (#[trigger] spec_holds_text(used@, ns)
                || args_use(v@.subrange(i as int, v@.len() as int), ns))
                == (spec_holds_text(entry, ns) || args_use(v@, ns)),
        decreases v@.len() - i,
    {
        proof {
            assert(v@.subrange(i as int, v@.len() as int).subrange(1, v@.len() - i) =~= v@.subrange(i + 1, v@.len() as int));
            assert(v@.subrange(i as int, v@.len() as int)[0] == v@[i as int]);
        }
        let ghost prev = used@;
        collect_used_namespaces_for_expr(&v[i].value, used);
        proof {
            assert forall|ns: Seq<char>| (spec_holds_text(used@, ns) || args_use(v@.subrange(i + 1, v@.len() as int), ns))
                == (spec_holds_text(entry, ns) || args_use(v@, ns)) by {
                assert(spec_holds_text(used@, ns) == (spec_holds_text(prev, ns) || arg_uses(v@[i as int], ns)));
                assert((spec_holds_text(prev, ns) || args_use(v@.subrange(i as int, v@.len() as int), ns))
                    == (spec_holds_text(entry, ns) || args_use(v@, ns)));
                assert(args_use(v@.subrange(i as int, v@.len() as int), ns)
                    == (arg_uses(v@[i as int], ns) || args_use(v@.subrange(i + 1, v@.len() as int), ns)));
            }
        }
        i = i + 1;
    }
}
/// Adds the namespaces a list of types uses.
#[verifier::spinoff_prover]
fn collect_used_namespaces_for_type_refs(v: &Vec<TypeRef>, used: &mut Vec<String>)
    ensures
        forall|ns: Seq<char>| #[trigger] spec_holds_text(final(used)@, ns)
            == (spec_holds_text(old(used)@, ns) || type_refs_use(v@, ns)),
    decreases v,
{
    let ghost entry = used@;
    let mut i: usize = 0;
    proof {
        assert(v@.subrange(0, v@.len() as int) =~= v@);
    }
    while i < v.len()
        invariant
            i <= v@.len(),
            forall|ns: Seq<char>| (#[trigger] spec_holds_text(used@, ns)
                || type_refs_use(v@.subrange(i as int, v@.len() as int), ns))
                == (spec_holds_text(entry, ns) || type_refs_use(v@, ns)),
        decreases v@.len() - i,
    {
        proof {
            assert(v@.subrange(i as int, v@.len() as int).subrange(1, v@.len() - i) =~= v@.subrange(i + 1, v@.len() as int));
            assert(v@.subrange(i as int, v@.len() as int)[0] == v@[i as int]);
        }
        let ghost prev = used@;
        collect_used_namespaces_for_type_ref(&v[i], used);
        proof {
            assert forall|ns: Seq<char>| (spec_holds_text(used@, ns) || type_refs_use(v@.subrange(i + 1, v@.len() as int), ns))
                == (spec_holds_text(entry, ns) || type_refs_use(v@, ns)) by {
                assert(spec_holds_text(used@, ns) == (spec_holds_text(prev, ns) || type_ref_uses(v@[i as int], ns)));
                assert((spec_holds_text(prev, ns) || type_refs_use(v@.subrange(i as int, v@.len() as int), ns))
                    == (spec_holds_text(entry, ns) || type_refs_use(v@, ns)));
                assert(type_refs_use(v@.subrange(i as int, v@.len() as int), ns)
                    == (type_ref_uses(v@[i as int], ns) || type_refs_use(v@.subrange(i + 1, v@.len() as int), ns)));
            }
        }
        i = i + 1;
    }
}
/// Adds the namespaces the interpolated parts of a string use.
#[verifier::spinoff_prover]
fn collect_used_namespaces_for_parts(v: &Vec<StringPart>, used: &mut Vec<String>)
    ensures
        forall|ns: Seq<char>| #[trigger] spec_holds_text(final(used)@, ns)
            == (spec_holds_text(old(used)@, ns) || parts_use(v@, ns)),
    decreases v,
{
    let ghost entry = used@;
    let mut i: usize = 0;
    proof {
        assert(v@.subrange(0, v@.len() as int) =~= v@);
    }
    while i < v.len()
        invariant
            i <= v@.len(),
            forall|ns: Seq<char>| (#[trigger] spec_holds_text(used@, ns)
                || parts_use(v@.subrange(i as int, v@.len() as int), ns))
                == (spec_holds_text(entry, ns) || parts_use(v@, ns)),
        decreases v@.len() - i,
    {
        proof {
            assert(v@.subrange(i as int, v@.len() as int).subrange(1, v@.len() - i) =~= v@.subrange(i + 1, v@.len() as int));
            assert(v@.subrange(i as int, v@.len() as int)[0] == v@[i as int]);
        }
        let ghost prev = used@;
        match &v[i] {
            StringPart::Expr(e) => collect_used_namespaces_for_expr(e, used),
            StringPart::Literal(_) => {},
        }
        proof {
            assert forall|ns: Seq<char>| (spec_holds_text(used@, ns) || parts_use(v@.subrange(i + 1, v@.len() as int), ns))
                == (spec_holds_text(entry, ns) || parts_use(v@, ns)) by {
                assert(spec_holds_text(used@, ns) == (spec_holds_text(prev, ns) || part_uses(v@[i as int], ns)));
                assert((spec_holds_text(prev, ns) || parts_use(v@.subrange(i as int, v@.len() as int), ns))
                    == (spec_holds_text(entry, ns) || parts_use(v@, ns)));
                assert(parts_use(v@.subrange(i as int, v@.len() as int), ns)
                    == (part_uses(v@[i as int], ns) || parts_use(v@.subrange(i + 1, v@.len() as int), ns)));
            }
        }
        i = i + 1;
    }
}
/// Adds the namespaces the keys and values of a map literal use.
#[verifier::spinoff_prover]
fn collect_used_namespaces_for_pairs(v: &Vec<(Expr, Expr)>, used: &mut Vec<String>)
    ensures
        forall|ns: Seq<char>| #[trigger] spec_holds_text(final(used)@, ns)
            == (spec_holds_text(old(used)@, ns) || pairs_use(v@, ns)),
    decreases v,
{
    let ghost entry = used@;
    let mut i: usize = 0;
    proof {
        assert(v@.subrange(0, v@.len() as int) =~= v@);
    }
    while i < v.len()
        invariant
            i <= v@.len(),
            forall|ns: Seq<char>| (#[trigger] spec_holds_text(used@, ns)
                || pairs_use(v@.subrange(i as int, v@.len() as int), ns))
                == (spec_holds_text(entry, ns) || pairs_use(v@, ns)),
        decreases v@.len() - i,
    {
        proof {
            assert(v@.subrange(i as int, v@.len() as int).subrange(1, v@.len() - i) =~= v@.subrange(i + 1, v@.len() as int));
            assert(v@.subrange(i as int, v@.len() as int)[0] == v@[i as int]);
        }
        let ghost prev = used@;
        collect_used_namespaces_for_expr(&v[i].0, used);
        collect_used_namespaces_for_expr(&v[i].1, used);
        proof {
            assert forall|ns: Seq<char>| (spec_holds_text(used@, ns) || pairs_use(v@.subrange(i + 1, v@.len() as int), ns))
                == (spec_holds_text(entry, ns) || pairs_use(v@, ns)) by {
                assert(spec_holds_text(used@, ns) == (spec_holds_text(prev, ns) || pair_uses(v@[i as int], ns)));
                assert((spec_holds_text(prev, ns) || pairs_use(v@.subrange(i as int, v@.len() as int), ns))
                    == (spec_holds_text(entry, ns) || pairs_use(v@, ns)));
                assert(pairs_use(v@.subrange(i as int, v@.len() as int), ns)
                    == (pair_uses(v@[i as int], ns) || pairs_use(v@.subrange(i + 1, v@.len() as int), ns)));
            }
        }
        i = i + 1;
    }
}
/// Adds the namespaces the values of `with` updates use.
#[verifier::spinoff_prover]
fn collect_used_namespaces_for_updates(v: &Vec<(String, Expr)>, used: &mut Vec<String>)
    ensures
        forall|ns: Seq<char>| #[trigger] spec_holds_text(final(used)@, ns)
            == (spec_holds_text(old(used)@, ns) || updates_use(v@, ns)),
    decreases v,
{
    let ghost entry = used@;
    let mut i: usize = 0;
    proof {
        assert(v@.subrange(0, v@.len() as int) =~= v@);
    }
    while i < v.len()
        invariant
            i <= v@.len(),
            forall|ns: Seq<char>| (#[trigger] spec_holds_text(used@, ns)
                || updates_use(v@.subrange(i as int, v@.len() as int), ns))
                == (spec_holds_text(entry, ns) || updates_use(v@, ns)),
        decreases v@.len() - i,
    {
        proof {
            assert(v@.subrange(i as int, v@.len() as int).subrange(1, v@.len() - i) =~= v@.subrange(i + 1, v@.len() as int));
            assert(v@.subrange(i as int, v@.len() as int)[0] == v@[i as int]);
        }
        let ghost prev = used@;
        collect_used_namespaces_for_expr(&v[i].1, used);
        proof {
            assert forall|ns: Seq<char>| (spec_holds_text(used@, ns) || updates_use(v@.subrange(i + 1, v@.len() as int), ns))
                == (spec_holds_text(entry, ns) || updates_use(v@, ns)) by {
                assert(spec_holds_text(used@, ns) == (spec_holds_text(prev, ns) || update_uses(v@[i as int], ns)));
                assert((spec_holds_text(prev, ns) || updates_use(v@.subrange(i as int, v@.len() as int), ns))
                    == (spec_holds_text(entry, ns) || updates_use(v@, ns)));
                assert(updates_use(v@.subrange(i as int, v@.len() as int), ns)
                    == (update_uses(v@[i as int], ns) || updates_use(v@.subrange(i + 1, v@.len() as int), ns)));
            }
        }
        i = i + 1;
    }
}
/// Adds the namespaces an expression uses (see `expr_uses`).
pub fn collect_used_namespaces_for_expr(expr: &Expr, used: &mut Vec<String>)
    ensures
        forall|ns: Seq<char>| #[trigger] spec_holds_text(final(used)@, ns)
            == (spec_holds_text(old(used)@, ns) || expr_uses(*expr, ns)),
    decreases expr,
{
    match expr {
        Expr::IntLit(..) | Expr::FloatLit(..) | Expr::DurationLit(..) | Expr::StringLit(..)
        | Expr::BoolLit(..) | Expr::Null(..) | Expr::Ident(..) | Expr::This(..) | Expr::NameOf { .. }
        | Expr::IntrinsicExpr { .. } => {},
        Expr::StringInterp { parts, .. } => collect_used_namespaces_for_parts(parts, used),
        Expr::Binary { left, right, .. } | Expr::Elvis { left, right, .. } => {
            collect_used_namespaces_for_expr(left, used);
            collect_used_namespaces_for_expr(right, used);
        },
        Expr::Unary { operand, .. } => collect_used_namespaces_for_expr(operand, used),
        Expr::NonNullAssert { expr: operand, .. } => collect_used_namespaces_for_expr(operand, used),
        Expr::MemberAccess { receiver, name, .. } | Expr::SafeCall { receiver, name, .. } => {
            collect_used_namespaces_for_expr(receiver, used);
            collect_used_namespaces_for_receiver(receiver, Some(name.as_str()), used);
        },
        Expr::SafeMethodCall { receiver, name, type_args, args, .. } => {
            collect_used_namespaces_for_expr(receiver, used);
            collect_used_namespaces_for_receiver(receiver, Some(name.as_str()), used);
            collect_used_namespaces_for_type_refs(type_args, used);
            collect_used_namespaces_for_args(args, used);
        },
        Expr::Call { receiver, name, type_args, args, .. } => {
            match receiver {
                Some(r) => {
                    collect_used_namespaces_for_expr(r, used);
                    collect_used_namespaces_for_receiver(r, Some(name.as_str()), used);
                },
                None => collect_used_namespaces_for_free_call(name.as_str(), used),
            }
            collect_used_namespaces_for_type_refs(type_args, used);
            collect_used_namespaces_for_args(args, used);
        },
        Expr::IndexAccess { receiver, index, .. } | Expr::SafeIndexAccess { receiver, index, .. } => {
            collect_used_namespaces_for_expr(receiver, used);
            collect_used_namespaces_for_expr(index, used);
        },
        Expr::IfExpr { cond, then_block, else_block, .. } => {
            collect_used_namespaces_for_expr(cond, used);
            collect_used_namespaces_for_block(then_block, used);
            collect_used_namespaces_for_block(else_block, used);
        },
        Expr::WhenExpr { subject, branches, .. } => {
            collect_used_namespaces_for_opt_boxed_expr(subject, used);
            collect_used_namespaces_for_when_branches(branches, used);
        },
        Expr::Range { start, end, step, .. } => {
            collect_used_namespaces_for_opt_boxed_expr(start, used);
            collect_used_namespaces_for_opt_boxed_expr(end, used);
            collect_used_namespaces_for_opt_boxed_expr(step, used);
        },
        Expr::Is { expr: inner, ty, .. } => {
            collect_used_namespaces_for_expr(inner, used);
            collect_used_namespaces_for_type_ref(ty, used);
        },
        Expr::Lambda { body, .. } => {
            match body {
                LambdaBody::Block(block) => collect_used_namespaces_for_block(block, used),
                LambdaBody::Expr(e) => collect_used_namespaces_for_expr(e, used),
            }
        },
        Expr::SafeCastExpr { expr: inner, target_type, .. } | Expr::ForceCastExpr { expr: inner, target_type, .. } => {
            collect_used_namespaces_for_expr(inner, used);
            collect_used_namespaces_for_type_ref(target_type, used);
        },
        Expr::Tuple { elements, .. } => collect_used_namespaces_for_exprs(elements, used),
        Expr::ListLit { elements, .. } => {
            insert_namespace(used, "System.Collections.Generic");
            collect_used_namespaces_for_exprs(elements, used);
        },
        Expr::MapLit { entries, .. } => {
            insert_namespace(used, "System.Collections.Generic");
            collect_used_namespaces_for_pairs(entries, used);
        },
        Expr::Await { expr: inner, .. } => collect_used_namespaces_for_expr(inner, used),
        Expr::RefOf { inner, .. } => collect_used_namespaces_for_expr(inner, used),
        Expr::ThrowExpr { exception, .. } => collect_used_namespaces_for_expr(exception, used),
        Expr::With { receiver, updates, .. } => {
            collect_used_namespaces_for_expr(receiver, used);
            collect_used_namespaces_for_updates(updates, used);
        },
        Expr::StackAlloc { element_ty, size, .. } => {
            collect_used_namespaces_for_type_ref(element_ty, used);
            collect_used_namespaces_for_expr(size, used);
        },
        Expr::TryExpr { try_block, catches, .. } => {
            collect_used_namespaces_for_block(try_block, used);
            collect_used_namespaces_for_catches(catches, used);
        },
    }
}

/// Adds the namespaces a member access on `receiver` implies (see `receiver_uses`).
pub fn collect_used_namespaces_for_receiver(receiver: &Expr, member_name: Option<&str>, used: &mut Vec<String>)
    ensures
        forall|ns: Seq<char>| #[trigger] spec_holds_text(final(used)@, ns)
            == (spec_holds_text(old(used)@, ns) || receiver_uses(*receiver, match member_name { Some(m) => Some(m@), None => None }, ns)),
{
    let name = match receiver {
        Expr::Ident(name, _) => name,
        _ => {
            return;
        },
    };
    if eq_ignore_ascii_case(name.as_str(), "input") {
        let is_action = match member_name {
            Some(m) => eq_ignore_ascii_case(m, "action"),
            None => false,
        };
        if is_action {
            insert_namespace(used, "UnityEngine.InputSystem");
        } else {
            mark_namespace_for_known_type("Input", used);
        }
        return;
    }
    if eq_ignore_ascii_case(name.as_str(), "quat") {
        mark_namespace_for_known_type("Quaternion", used);
        return;
    }
    mark_namespace_for_known_type(name.as_str(), used);
}

/// Adds the namespaces a built-in free function implies (see `free_call_uses`).
pub fn collect_used_namespaces_for_free_call(name: &str, used: &mut Vec<String>)
    ensures
        forall|ns: Seq<char>| #[trigger] spec_holds_text(final(used)@, ns)
            == (spec_holds_text(old(used)@, ns) || free_call_uses(name@, ns)),
{
    if str_eq(name, "vec2") {
        mark_namespace_for_known_type("Vector2", used);
    } else if str_eq(name, "vec3") {
        mark_namespace_for_known_type("Vector3", used);
    } else if str_eq(name, "color") {
        mark_namespace_for_known_type("Color", used);
    } else if str_eq(name, "Destroy") {
        mark_namespace_for_known_type("Object", used);
    } else if str_eq(name, "log") || str_eq(name, "warn") || str_eq(name, "error") || str_eq(name, "print") {
        mark_namespace_for_known_type("Debug", used);
    }
}

/// Adds the namespaces a type uses (see `type_ref_uses`).
pub fn collect_used_namespaces_for_type_ref(ty: &TypeRef, used: &mut Vec<String>)
    ensures
        forall|ns: Seq<char>| #[trigger] spec_holds_text(final(used)@, ns)
            == (spec_holds_text(old(used)@, ns) || type_ref_uses(*ty, ns)),
    decreases ty,
{
    match ty {
        TypeRef::Simple { name, .. } => mark_namespace_for_known_type(name.as_str(), used),
        TypeRef::Generic { name, type_args, .. } => {
            mark_namespace_for_known_type(name.as_str(), used);
            collect_used_namespaces_for_type_refs(type_args, used);
        },
        TypeRef::Qualified { .. } => {},
        TypeRef::Tuple { types, .. } => collect_used_namespaces_for_type_refs(types, used),
        TypeRef::Function { param_types, return_type, .. } => {
            collect_used_namespaces_for_type_refs(param_types, used);
            collect_used_namespaces_for_type_ref(return_type, used);
        },
    }
}

} // verus!
